//! Ambient occlusion: how far the blocks around a corner darken it.

use crate::chunk::LocalSection;
use crate::direction::Direction;
use crate::rotation::{centred, corner_on_face, is_corner};
use crate::vec3::{vec_add, Axis, IVec3, Vec3};
use vstd::prelude::*;

verus! {

/// The brightness of a corner, from 0 to 3: fully dark where both sides are
/// covered, else one step darker for a covered side and one for a covered corner.
pub open spec fn brightness(side1: bool, side2: bool, corner: bool) -> int {
    if side1 && side2 {
        0
    } else {
        3 - (if side1 || side2 { 1int } else { 0 }) - (if corner { 1int } else { 0 })
    }
}

/// The brightness of a corner next to the three given blocks.
pub fn ao(side1: bool, side2: bool, corner: bool) -> (level: u32)
    ensures
        level == brightness(side1, side2, corner),
        level <= 3,
        side1 && side2 ==> level == 0,
        !(side1 && side2) ==> level + side1 as int + side2 as int + corner as int == 3,
{
    if side1 && side2 {
        0
    } else {
        3 - ((side1 || side2) as u32 + corner as u32)
    }
}

/// Whether `p` lies in the padded section.
pub open spec fn in_padded_section(p: Vec3<int>) -> bool {
    &&& 0 <= p.x < 18
    &&& 0 <= p.y < 18
    &&& 0 <= p.z < 18
}

/// Whether the block at `p` darkens the corners next to it. Nothing outside the
/// padded section does.
pub open spec fn darkened_by(section: LocalSection, p: Vec3<int>) -> bool {
    in_padded_section(p) && section.at(p.x, p.y, p.z).darkens()
}

/// The steps from a block to the three blocks that shade one corner of its face
/// in direction `dir`. `out` points from the centre of the block to the corner.
/// The first two blocks lie beside the corner, the third across it.
pub open spec fn shading_steps(out: Vec3<int>, dir: Direction) -> (Vec3<int>, Vec3<int>, Vec3<int>) {
    let flat_x = Vec3 { x: 0, ..out };
    let flat_y = Vec3 { y: 0, ..out };
    let flat_z = Vec3 { z: 0, ..out };
    match dir.axis() {
        Axis::X => (flat_y, flat_z, out),
        Axis::Y => (flat_x, flat_z, out),
        Axis::Z => (flat_x, flat_y, out),
    }
}

/// The brightness of the corner `offset` of the face in direction `dir` of the
/// block at `local` in the padded section.
pub open spec fn corner_brightness(
    section: LocalSection,
    local: Vec3<int>,
    offset: Vec3<int>,
    dir: Direction,
) -> int {
    let steps = shading_steps(centred(offset), dir);
    brightness(
        darkened_by(section, vec_add(local, steps.0)),
        darkened_by(section, vec_add(local, steps.1)),
        darkened_by(section, vec_add(local, steps.2)),
    )
}

/// Whether twice `offset` less one, and its sum with `local`, are machine
/// integers.
pub open spec fn steps_fit(local: i32, offset: i32) -> bool {
    &&& i32::MIN <= 2 * offset - 1
    &&& 2 * offset <= i32::MAX
    &&& i32::MIN <= local + 2 * offset - 1 <= i32::MAX
}

/// Whether the block at `p` of the padded section darkens the corners next to it.
fn darkens_at(section: &LocalSection, p: IVec3) -> (r: bool)
    ensures
        r == darkened_by(*section, p.to_int()),
{
    if p.x < 0 || p.y < 0 || p.z < 0 || p.x >= 18 || p.y >= 18 || p.z >= 18 {
        return false;
    }
    section.blocks[p.x as usize][p.y as usize][p.z as usize].occludes_light()
}

/// Computes the brightness of the corner `offset` of the face in direction `dir`
/// of the block at `local` in the padded section.
pub fn compute_ao(local: IVec3, offset: IVec3, dir: Direction, section: &LocalSection) -> (level: u32)
    requires
        steps_fit(local.x, offset.x),
        steps_fit(local.y, offset.y),
        steps_fit(local.z, offset.z),
    ensures
        level == corner_brightness(*section, local.to_int(), offset.to_int(), dir),
        level <= 3,
{
    let ox: i32 = offset.x * 2 - 1;
    let oy: i32 = offset.y * 2 - 1;
    let oz: i32 = offset.z * 2 - 1;
    let (step1, step2): (IVec3, IVec3) = match dir {
        Direction::East | Direction::West => (Vec3::new(ox, 0, oz), Vec3::new(ox, oy, 0)),
        Direction::Up | Direction::Down => (Vec3::new(0, oy, oz), Vec3::new(ox, oy, 0)),
        Direction::North | Direction::South => (Vec3::new(0, oy, oz), Vec3::new(ox, 0, oz)),
    };
    let side1: bool = darkens_at(section, local.plus(step1));
    let side2: bool = darkens_at(section, local.plus(step2));
    let corner: bool = darkens_at(section, local.plus(Vec3::new(ox, oy, oz)));
    ao(side1, side2, corner)
}

/// The two sides count alike, and the block across the corner does not matter
/// once both sides are covered.
pub proof fn law_sides_count_alike(side1: bool, side2: bool, corner: bool)
    ensures
        brightness(side1, side2, corner) == brightness(side2, side1, corner),
        brightness(true, true, corner) == 0,
{
}

/// Short of both sides being covered, every covered block takes one step of light.
pub proof fn law_each_cover_takes_one_step(side1: bool, side2: bool, corner: bool)
    requires
        !(side1 && side2),
    ensures
        brightness(side1, side2, corner) + side1 as int + side2 as int + corner as int == 3,
{
}

/// Whether the block at the given place of the padded section stops light: it is not
/// air, of a kind that occludes, and fills its cube.
pub open spec fn stops_light(section: LocalSection, x: int, y: int, z: int) -> bool {
    let block = section.blocks@[x]@[y]@[z];
    &&& 0 <= x < 18 && 0 <= y < 18 && 0 <= z < 18
    &&& block.id != 0 && block.can_occlude && block.collision_shape_full
}

/// Whether `level` is the light left at a corner where the given three blocks stop
/// light: none between two covered sides, else one step less than full for each.
pub open spec fn light_left(level: int, side1: bool, side2: bool, corner: bool) -> bool {
    &&& side1 && side2 ==> level == 0
    &&& !(side1 && side2) ==> level + side1 as int + side2 as int + corner as int == 3
}

/// Whether `level` is the light at a corner of the block at `at` in the padded
/// section, on a side that points along `axis`. The corner lies `out` from the centre
/// of the block. The block across the corner is all of `out` away; the two beside it
/// are level with the block on one of the axes along the side.
pub open spec fn is_light_at(
    section: LocalSection,
    at: Vec3<int>,
    out: Vec3<int>,
    axis: Axis,
    level: int,
) -> bool {
    let across = stops_light(section, at.x + out.x, at.y + out.y, at.z + out.z);
    let level_x = stops_light(section, at.x, at.y + out.y, at.z + out.z);
    let level_y = stops_light(section, at.x + out.x, at.y, at.z + out.z);
    let level_z = stops_light(section, at.x + out.x, at.y + out.y, at.z);
    match axis {
        Axis::X => light_left(level, level_y, level_z, across),
        Axis::Y => light_left(level, level_x, level_z, across),
        Axis::Z => light_left(level, level_x, level_y, across),
    }
}

/// The light at a corner of a face, whatever its direction, is what the blocks
/// themselves leave of it: the two beside the corner and the one across it.
pub proof fn law_blocks_take_the_light(
    section: LocalSection,
    local: Vec3<int>,
    offset: Vec3<int>,
    dir: Direction,
    axis: Axis,
)
    requires
        dir.unit().along(axis) != 0,
    ensures
        is_light_at(
            section,
            local,
            Vec3 { x: 2 * offset.x - 1, y: 2 * offset.y - 1, z: 2 * offset.z - 1 },
            axis,
            corner_brightness(section, local, offset, dir),
        ),
{
    assert(forall|p: Vec3<int>| #[trigger] darkened_by(section, p) == stops_light(
        section,
        p.x,
        p.y,
        p.z,
    ));
    let out = centred(offset);
    let steps = shading_steps(out, dir);
    assert(darkened_by(section, vec_add(local, steps.0)) == stops_light(
        section,
        local.x + steps.0.x,
        local.y + steps.0.y,
        local.z + steps.0.z,
    ));
    assert(darkened_by(section, vec_add(local, steps.1)) == stops_light(
        section,
        local.x + steps.1.x,
        local.y + steps.1.y,
        local.z + steps.1.z,
    ));
    assert(darkened_by(section, vec_add(local, steps.2)) == stops_light(
        section,
        local.x + steps.2.x,
        local.y + steps.2.y,
        local.z + steps.2.z,
    ));
}

/// A corner is fully bright only where nothing covers it, and fully dark only
/// where both sides are covered.
pub proof fn law_extremes_of_brightness(side1: bool, side2: bool, corner: bool)
    ensures
        0 <= brightness(side1, side2, corner) <= 3,
        brightness(side1, side2, corner) == 3 <==> !side1 && !side2 && !corner,
        brightness(side1, side2, corner) == 0 <==> side1 && side2,
{
}

/// Covering more never brightens a corner.
pub proof fn law_covering_never_brightens(
    side1: bool,
    side2: bool,
    corner: bool,
    more1: bool,
    more2: bool,
    more_corner: bool,
)
    requires
        side1 ==> more1,
        side2 ==> more2,
        corner ==> more_corner,
    ensures
        brightness(more1, more2, more_corner) <= brightness(side1, side2, corner),
{
}

/// The light at a corner can be computed wherever the doubled offset, the step out and
/// the place it leads to are machine integers; it always can for a block of the section.
pub proof fn law_where_light_can_be_computed(local: i32, offset: i32)
    ensures
        i32::MIN < 2 * offset <= i32::MAX && i32::MIN <= local + (2 * offset - 1) <= i32::MAX
            ==> steps_fit(local, offset),
        0 <= local < 18 && 0 <= offset <= 1 ==> steps_fit(local, offset),
{
}

/// The blocks that shade a corner of a face all lie one step out in the direction
/// of the face, and for a block of the section itself all of them lie in the
/// padded section.
pub proof fn law_shading_blocks_lie_in_front(
    local: Vec3<int>,
    offset: Vec3<int>,
    dir: Direction,
)
    requires
        is_corner(offset),
        corner_on_face(offset, dir),
        1 <= local.x <= 16,
        1 <= local.y <= 16,
        1 <= local.z <= 16,
    ensures
        ({
            let steps = shading_steps(centred(offset), dir);
            let ahead = dir.unit().along(dir.axis());
            &&& steps.0.along(dir.axis()) == ahead
            &&& steps.1.along(dir.axis()) == ahead
            &&& steps.2.along(dir.axis()) == ahead
            &&& in_padded_section(vec_add(local, steps.0))
            &&& in_padded_section(vec_add(local, steps.1))
            &&& in_padded_section(vec_add(local, steps.2))
        }),
{
}

} // verus!
