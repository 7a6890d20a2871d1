//! The six directions a block face can point in.

use crate::vec3::{Axis, IVec3, Vec3};
use vstd::prelude::*;

verus! {

/// The six directions along the axes. Up is towards positive Y, south towards
/// positive Z and east towards positive X.
#[derive(Clone, Copy, Debug, PartialEq, Eq, Structural)]
pub enum Direction {
    Down,
    Up,
    North,
    South,
    West,
    East,
}

impl Direction {
    /// The axis the direction lies along.
    pub open spec fn axis(self) -> Axis {
        match self {
            Direction::West | Direction::East => Axis::X,
            Direction::Down | Direction::Up => Axis::Y,
            Direction::North | Direction::South => Axis::Z,
        }
    }

    /// Whether the direction points towards growing coordinates.
    pub open spec fn is_positive(self) -> bool {
        self is Up || self is South || self is East
    }

    /// The unit step in the direction.
    pub open spec fn unit(self) -> Vec3<int> {
        let step: int = if self.is_positive() { 1 } else { -1 };
        match self.axis() {
            Axis::X => Vec3 { x: step, y: 0, z: 0 },
            Axis::Y => Vec3 { x: 0, y: step, z: 0 },
            Axis::Z => Vec3 { x: 0, y: 0, z: step },
        }
    }

    /// The unit step in the direction.
    pub fn normal(self) -> (n: IVec3)
        ensures
            n.to_int() == self.unit(),
            n.x == (if self is East { 1int } else if self is West { -1int } else { 0int }),
            n.y == (if self is Up { 1int } else if self is Down { -1int } else { 0int }),
            n.z == (if self is South { 1int } else if self is North { -1int } else { 0int }),
    {
        match self {
            Direction::Down => Vec3 { x: 0, y: -1, z: 0 },
            Direction::Up => Vec3 { x: 0, y: 1, z: 0 },
            Direction::North => Vec3 { x: 0, y: 0, z: -1 },
            Direction::South => Vec3 { x: 0, y: 0, z: 1 },
            Direction::West => Vec3 { x: -1, y: 0, z: 0 },
            Direction::East => Vec3 { x: 1, y: 0, z: 0 },
        }
    }

    /// The lower-case name of the direction.
    pub open spec fn name(self) -> Seq<char> {
        match self {
            Direction::Down => "down"@,
            Direction::Up => "up"@,
            Direction::North => "north"@,
            Direction::South => "south"@,
            Direction::West => "west"@,
            Direction::East => "east"@,
        }
    }

    /// Finds the direction with the given lower-case name.
    pub fn from_name(name: &str) -> (dir: Option<Direction>)
        ensures
            match dir {
                Some(d) => d.name() == name@,
                None => forall|d: Direction| #[trigger] d.name() != name@,
            },
            dir == direction_named(name@),
            dir == Some(Direction::Down) <==> name@ == "down"@,
            dir == Some(Direction::Up) <==> name@ == "up"@,
            dir == Some(Direction::North) <==> name@ == "north"@,
            dir == Some(Direction::South) <==> name@ == "south"@,
            dir == Some(Direction::West) <==> name@ == "west"@,
            dir == Some(Direction::East) <==> name@ == "east"@,
    {
        proof {
            lemma_names_are_distinct();
        }
        let dir: Option<Direction> = if text_eq(name, "down") {
            Some(Direction::Down)
        } else if text_eq(name, "up") {
            Some(Direction::Up)
        } else if text_eq(name, "north") {
            Some(Direction::North)
        } else if text_eq(name, "south") {
            Some(Direction::South)
        } else if text_eq(name, "west") {
            Some(Direction::West)
        } else if text_eq(name, "east") {
            Some(Direction::East)
        } else {
            None
        };
        assert(Direction::Down.name() == "down"@ && Direction::Up.name() == "up"@);
        assert(Direction::North.name() == "north"@ && Direction::South.name() == "south"@);
        assert(Direction::West.name() == "west"@ && Direction::East.name() == "east"@);
        assert(dir matches Some(d) ==> d.name() == name@);
        assert(dir is None ==> forall|d: Direction| #[trigger] d.name() != name@);
        dir
    }
}

/// The direction that bears the given name, if one does.
pub open spec fn direction_named(name: Seq<char>) -> Option<Direction> {
    if exists|d: Direction| #[trigger] d.name() == name {
        Some(choose|d: Direction| #[trigger] d.name() == name)
    } else {
        None
    }
}

/// No two directions share a name.
pub proof fn lemma_names_are_distinct()
    ensures
        forall|a: Direction, b: Direction| #[trigger] a.name() == #[trigger] b.name() ==> a == b,
{
    reveal_strlit("down");
    reveal_strlit("up");
    reveal_strlit("north");
    reveal_strlit("south");
    reveal_strlit("west");
    reveal_strlit("east");
    assert forall|a: Direction, b: Direction|
        #[trigger] a.name() == #[trigger] b.name() implies a == b by {
        assert(a.name().len() == b.name().len());
        assert(a.name()[0] == b.name()[0]);
    }
}

/// The direction with the name of a given direction is that direction.
pub proof fn lemma_name_identifies(dir: Direction)
    ensures
        direction_named(dir.name()) == Some(dir),
{
    lemma_names_are_distinct();
}

/// East, up and south are the steps of one towards growing X, Y and Z; west, down
/// and north undo them.
pub proof fn law_steps_of_directions()
    ensures
        Direction::East.unit() == (Vec3 { x: 1int, y: 0int, z: 0int }),
        Direction::Up.unit() == (Vec3 { x: 0int, y: 1int, z: 0int }),
        Direction::South.unit() == (Vec3 { x: 0int, y: 0int, z: 1int }),
        Direction::West.unit() == (Vec3 { x: -1int, y: 0int, z: 0int }),
        Direction::Down.unit() == (Vec3 { x: 0int, y: -1int, z: 0int }),
        Direction::North.unit() == (Vec3 { x: 0int, y: 0int, z: -1int }),
{
}

/// A direction lies along the one axis on which its step is not zero, and is
/// positive where that step is.
pub proof fn law_directions_lie_along_their_axis(dir: Direction, axis: Axis)
    ensures
        dir.axis() == axis <==> dir.unit().along(axis) != 0,
        dir.is_positive() <==> dir.unit().along(dir.axis()) == 1,
{
}

/// Whether two strings hold the same characters.
fn text_eq(a: &str, b: &str) -> (same: bool)
    ensures
        same == (a@ == b@),
{
    let len: usize = a.unicode_len();
    if len != b.unicode_len() {
        return false;
    }
    let mut i: usize = 0;
    while i < len
        invariant
            i <= len,
            len == a@.len(),
            len == b@.len(),
            forall|k: int| 0 <= k < i ==> a@[k] == b@[k],
        decreases len - i,
    {
        if a.get_char(i) != b.get_char(i) {
            return false;
        }
        i = i + 1;
    }
    assert(a@ =~= b@);
    true
}

} // verus!
