//! What the mesher knows about a block state.

use vstd::prelude::*;

verus! {

/// A state a block can be in, with the properties that decide what it hides.
#[derive(Clone, Copy, Debug, PartialEq, Eq, Structural)]
pub struct BlockState {
    /// The number of the state. Air has number 0.
    pub id: u32,
    /// Whether the block is of a kind that hides what lies behind it.
    pub can_occlude: bool,
    /// Whether the block collides with nothing.
    pub collision_shape_empty: bool,
    /// Whether the block collides with everything in its cube.
    pub collision_shape_full: bool,
}

impl BlockState {
    /// The state of plain air.
    pub open spec fn air_state() -> BlockState {
        BlockState {
            id: 0,
            can_occlude: false,
            collision_shape_empty: true,
            collision_shape_full: false,
        }
    }

    /// The state of plain air.
    pub fn air() -> (state: BlockState)
        ensures
            state == BlockState::air_state(),
            state.id == 0,
    {
        BlockState {
            id: 0,
            can_occlude: false,
            collision_shape_empty: true,
            collision_shape_full: false,
        }
    }

    /// Whether the state is plain air.
    pub open spec fn airy(self) -> bool {
        self.id == 0
    }

    /// Whether the state is plain air. Other kinds of air have numbers of their
    /// own and do not count.
    pub fn is_air(&self) -> (r: bool)
        ensures
            r == self.airy(),
            r == (self.id == 0),
    {
        self.id == 0
    }

    /// Whether the block hides a face that is pressed against it.
    pub open spec fn hides_faces(self) -> bool {
        self.can_occlude && !self.airy() && !self.collision_shape_empty
    }

    /// Whether the block hides a face that is pressed against it.
    pub fn occludes_face(&self) -> (r: bool)
        ensures
            r == self.hides_faces(),
            r ==> self.can_occlude && self.id != 0 && !self.collision_shape_empty,
            !r ==> !self.can_occlude || self.id == 0 || self.collision_shape_empty,
    {
        if self.can_occlude {
            if self.is_air() {
                return false;
            }
            if self.collision_shape_empty {
                return false;
            }
            true
        } else {
            false
        }
    }

    /// Whether the block darkens the corners next to it.
    pub open spec fn darkens(self) -> bool {
        !self.airy() && self.can_occlude && self.collision_shape_full
    }

    /// Whether the block darkens the corners next to it.
    pub fn occludes_light(&self) -> (r: bool)
        ensures
            r == self.darkens(),
            r ==> self.can_occlude && self.id != 0 && self.collision_shape_full,
            !r ==> !self.can_occlude || self.id == 0 || !self.collision_shape_full,
    {
        if self.is_air() {
            return false;
        }
        self.can_occlude && self.collision_shape_full
    }
}

/// A block hides the faces pressed against it only if its kind can occlude, it is
/// not air and it collides with something. Nothing more is asked of it.
pub proof fn law_what_hides_faces(state: BlockState)
    ensures
        !state.can_occlude ==> !state.hides_faces(),
        state.id == 0 ==> !state.hides_faces(),
        state.collision_shape_empty ==> !state.hides_faces(),
        state.can_occlude && state.id != 0 && !state.collision_shape_empty ==> state.hides_faces(),
{
}

/// A block darkens the corners next to it only if its kind can occlude, it is not
/// air and it fills its cube. Nothing more is asked of it.
pub proof fn law_what_darkens(state: BlockState)
    ensures
        !state.can_occlude ==> !state.darkens(),
        state.id == 0 ==> !state.darkens(),
        !state.collision_shape_full ==> !state.darkens(),
        state.can_occlude && state.id != 0 && state.collision_shape_full ==> state.darkens(),
{
}

/// Plain air is state 0 and no other state.
pub proof fn law_what_is_air(state: BlockState)
    ensures
        state.airy() <==> state.id == 0,
        BlockState::air_state().id == 0,
{
}

} // verus!
