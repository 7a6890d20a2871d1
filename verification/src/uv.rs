//! How textures lie on faces.

use crate::direction::Direction;
use crate::face::face_corners;
use crate::rotation::{flip, normalized_degrees};
use crate::vec3::{Axis, Mirrored, Vec3};
use vstd::prelude::*;

verus! {

/// The way one texture coordinate runs across a face: along which axis of the
/// model, and whether against it.
#[derive(Clone, Copy, Debug, PartialEq, Eq, Structural)]
pub struct UvRun {
    pub axis: Axis,
    pub mirrored: bool,
}

/// How the two texture coordinates run across a face.
#[derive(Clone, Copy, Debug, PartialEq, Eq, Structural)]
pub struct UvMapping {
    pub u: UvRun,
    pub v: UvRun,
}

/// The way texture coordinates run across the face in direction `dir`. On the
/// four upright faces V runs down; on the top V runs south and on the bottom
/// north. U runs east or south, and backwards on the south and west faces.
pub open spec fn mapping_of(dir: Direction) -> UvMapping {
    let down = UvRun { axis: Axis::Y, mirrored: true };
    match dir {
        Direction::North => UvMapping { u: UvRun { axis: Axis::X, mirrored: false }, v: down },
        Direction::South => UvMapping { u: UvRun { axis: Axis::X, mirrored: true }, v: down },
        Direction::East => UvMapping { u: UvRun { axis: Axis::Z, mirrored: false }, v: down },
        Direction::West => UvMapping { u: UvRun { axis: Axis::Z, mirrored: true }, v: down },
        Direction::Up => UvMapping {
            u: UvRun { axis: Axis::X, mirrored: false },
            v: UvRun { axis: Axis::Z, mirrored: false },
        },
        Direction::Down => UvMapping {
            u: UvRun { axis: Axis::X, mirrored: false },
            v: UvRun { axis: Axis::Z, mirrored: true },
        },
    }
}

/// The way texture coordinates run across the face in direction `dir`.
pub fn uv_mapping(dir: Direction) -> (mapping: UvMapping)
    ensures
        mapping == mapping_of(dir),
{
    let down: UvRun = UvRun { axis: Axis::Y, mirrored: true };
    match dir {
        Direction::North => UvMapping { u: UvRun { axis: Axis::X, mirrored: false }, v: down },
        Direction::South => UvMapping { u: UvRun { axis: Axis::X, mirrored: true }, v: down },
        Direction::East => UvMapping { u: UvRun { axis: Axis::Z, mirrored: false }, v: down },
        Direction::West => UvMapping { u: UvRun { axis: Axis::Z, mirrored: true }, v: down },
        Direction::Up => UvMapping {
            u: UvRun { axis: Axis::X, mirrored: false },
            v: UvRun { axis: Axis::Z, mirrored: false },
        },
        Direction::Down => UvMapping {
            u: UvRun { axis: Axis::X, mirrored: false },
            v: UvRun { axis: Axis::Z, mirrored: true },
        },
    }
}

impl UvRun {
    /// The distance that this coordinate measures for a vertex: from the low end
    /// of the box, or, run backwards, from its high end.
    pub open spec fn picked<T>(self, from_low: Vec3<T>, to_high: Vec3<T>) -> T {
        if self.mirrored {
            to_high.along(self.axis)
        } else {
            from_low.along(self.axis)
        }
    }

    /// Picks the distance that this coordinate measures for a vertex, given its
    /// distances from the low end and to the high end of the box on every axis.
    pub fn pick<T: Copy>(&self, from_low: &Vec3<T>, to_high: &Vec3<T>) -> (distance: T)
        ensures
            distance == self.picked(*from_low, *to_high),
            self.mirrored ==> distance == to_high.along(self.axis),
            !self.mirrored ==> distance == from_low.along(self.axis),
    {
        if self.mirrored {
            to_high.component(self.axis)
        } else {
            from_low.component(self.axis)
        }
    }
}

/// Whether a texture on the face in direction `dir` is seen mirrored: U runs
/// backwards on the south and west faces, V on the bottom.
pub open spec fn seen_mirrored(dir: Direction) -> bool {
    dir is South || dir is West || dir is Down
}

/// Whether a texture on the face in direction `dir` is seen mirrored.
pub fn uv_mapping_is_mirrored(dir: Direction) -> (mirrored: bool)
    ensures
        mirrored == seen_mirrored(dir),
        mirrored <==> dir is South || dir is West || dir is Down,
{
    match dir {
        Direction::South | Direction::West | Direction::Down => true,
        _ => false,
    }
}

/// A point of the unit square turned clockwise about its centre, where `rest`
/// gives the distance to the far edge.
pub open spec fn turned_uv<T>(s: T, t: T, rest: spec_fn(T) -> T, degrees: int) -> (T, T) {
    if degrees % 360 == 90 {
        (t, rest(s))
    } else if degrees % 360 == 180 {
        (rest(s), rest(t))
    } else if degrees % 360 == 270 {
        (rest(t), s)
    } else {
        (s, t)
    }
}

/// The distance to the far edge of a square of side `side`.
pub open spec fn rest_of(side: int) -> spec_fn(int) -> int {
    |i: int| side - i
}

/// Turns a point of the unit square clockwise about its centre. Each coordinate
/// comes with its distance to the far edge. Angles that are no quarter turns
/// leave the point where it is.
pub fn turn_uv<T: Copy>(s: Mirrored<T>, t: Mirrored<T>, degrees: i32) -> (r: (
    Mirrored<T>,
    Mirrored<T>,
))
    ensures
        r == turned_uv(s, t, flip(), degrees as int),
{
    let turn: i32 = normalized_degrees(degrees);
    if turn == 90 {
        (t, s.flipped())
    } else if turn == 180 {
        (s.flipped(), t.flipped())
    } else if turn == 270 {
        (t.flipped(), s)
    } else {
        (s, t)
    }
}

/// The clockwise angle that undoes, on the texture of a face, the turn of its
/// model about the Y axis.
pub open spec fn locked_angle(face_dir: Direction, y_rot_deg: int) -> int {
    if seen_mirrored(face_dir) {
        y_rot_deg % 360
    } else {
        (-y_rot_deg) % 360
    }
}

/// Computes the clockwise angle that keeps the texture of a face in place while
/// its model is turned about the Y axis. A mirrored texture turns the other way.
pub fn uvlock_angle(face_dir: Direction, y_rot_deg: i32) -> (angle: i32)
    requires
        y_rot_deg != i32::MIN,
    ensures
        angle == locked_angle(face_dir, y_rot_deg as int),
        0 <= angle < 360,
        face_dir is Up || face_dir is North || face_dir is East ==> (angle + y_rot_deg) % 360 == 0,
        face_dir is Down || face_dir is South || face_dir is West ==> (angle - y_rot_deg) % 360
            == 0,
{
    let cw: i32 = normalized_degrees(-y_rot_deg);
    if uv_mapping_is_mirrored(face_dir) {
        normalized_degrees(-cw)
    } else {
        cw
    }
}

/// A face is seen mirrored exactly when one of its texture coordinates runs
/// against a level axis.
pub proof fn law_mirrored_faces_run_against_a_level_axis(dir: Direction)
    ensures
        seen_mirrored(dir) <==> {
            let m = mapping_of(dir);
            (m.u.mirrored && !(m.u.axis is Y)) || (m.v.mirrored && !(m.v.axis is Y))
        },
{
}

/// On the upright faces V measures the distance from the top of the box, on the top
/// face that from its north end and on the bottom face that from its south end. U
/// measures the distance from the west end on the top, bottom and north faces, from
/// the east end on the south face, from the north end on the east face and from the
/// south end on the west face.
pub proof fn law_what_texture_coordinates_measure<T>(
    dir: Direction,
    from_low: Vec3<T>,
    to_high: Vec3<T>,
)
    ensures
        ({
            let u = mapping_of(dir).u.picked(from_low, to_high);
            let v = mapping_of(dir).v.picked(from_low, to_high);
            &&& dir.unit().y == 0 ==> v == to_high.y
            &&& dir.unit().y == 1 ==> v == from_low.z
            &&& dir.unit().y == -1 ==> v == to_high.z
            &&& dir.unit().y != 0 || dir.unit().z == -1 ==> u == from_low.x
            &&& dir.unit().z == 1 ==> u == to_high.x
            &&& dir.unit().x == 1 ==> u == from_low.z
            &&& dir.unit().x == -1 ==> u == to_high.z
        }),
{
}

/// The south, west and bottom faces are seen mirrored, and no others.
pub proof fn law_which_faces_are_seen_mirrored(dir: Direction)
    ensures
        seen_mirrored(dir) <==> dir.unit().z == 1 || dir.unit().x == -1 || dir.unit().y == -1,
{
}

/// Texture coordinates run along the face, never through it, and along different
/// axes.
pub proof fn law_texture_lies_in_the_face(dir: Direction)
    ensures
        mapping_of(dir).u.axis != dir.axis(),
        mapping_of(dir).v.axis != dir.axis(),
        mapping_of(dir).u.axis != mapping_of(dir).v.axis,
{
}

/// The corner of the texture at the given corner of the block.
pub open spec fn texture_corner(dir: Direction, offset: Vec3<int>) -> (int, int) {
    let to_high = Vec3 { x: 1 - offset.x, y: 1 - offset.y, z: 1 - offset.z };
    (mapping_of(dir).u.picked(offset, to_high), mapping_of(dir).v.picked(offset, to_high))
}

/// The four corners of a face carry the four corners of the texture, and the
/// texture does not cross over itself: opposite corners stay opposite.
pub proof fn law_face_shows_whole_texture(dir: Direction)
    ensures
        ({
            let c = face_corners(dir);
            let a = texture_corner(dir, c[0]);
            let b = texture_corner(dir, c[1]);
            &&& 0 <= a.0 <= 1 && 0 <= a.1 <= 1
            &&& 0 <= b.0 <= 1 && 0 <= b.1 <= 1
            &&& a.0 == b.0 <==> a.1 != b.1
            &&& texture_corner(dir, c[2]) == (1 - a.0, 1 - a.1)
            &&& texture_corner(dir, c[3]) == (1 - b.0, 1 - b.1)
        }),
{
}

/// Turning a texture and turning it back, or by whole turns, restores it.
pub proof fn law_turning_uv_back_restores(s: int, t: int, side: int, degrees: int)
    ensures
        ({
            let r = turned_uv(s, t, rest_of(side), degrees);
            turned_uv(r.0, r.1, rest_of(side), -degrees) == (s, t)
        }),
        turned_uv(s, t, rest_of(side), 360 * degrees) == (s, t),
{
}

/// A clockwise quarter turn makes what was the distance from the left edge the
/// distance from the bottom, and what was the distance from the top the distance from
/// the left. Quarter turns add up, and other angles turn nothing.
pub proof fn law_texture_turns(s: int, t: int, side: int, a: int, b: int)
    ensures
        a % 360 == 90 ==> turned_uv(s, t, rest_of(side), a) == (t, side - s),
        a % 90 == 0 && b % 90 == 0 ==> {
            let q = turned_uv(s, t, rest_of(side), a);
            turned_uv(q.0, q.1, rest_of(side), b) == turned_uv(s, t, rest_of(side), a + b)
        },
        a % 90 != 0 || a % 360 == 0 ==> turned_uv(s, t, rest_of(side), a) == (s, t),
{
}

/// Coordinates that carry their distance to the far edge turn as plain ones do.
pub proof fn law_mirrored_coordinates_turn_alike(
    s: Mirrored<int>,
    t: Mirrored<int>,
    side: int,
    degrees: int,
)
    requires
        s.value + s.image == side,
        t.value + t.image == side,
    ensures
        ({
            let m = turned_uv(s, t, flip(), degrees);
            let p = turned_uv(s.value, t.value, rest_of(side), degrees);
            &&& m.0.value == p.0 && m.1.value == p.1
            &&& m.0.value + m.0.image == side && m.1.value + m.1.image == side
        }),
{
}

/// Two quarter turns of a texture make a half turn, and a quarter turn keeps a
/// point in the square.
pub proof fn law_quarter_turns_add_up(s: int, t: int, side: int)
    requires
        0 <= s <= side,
        0 <= t <= side,
    ensures
        ({
            let q = turned_uv(s, t, rest_of(side), 90);
            &&& 0 <= q.0 <= side && 0 <= q.1 <= side
            &&& turned_uv(q.0, q.1, rest_of(side), 90) == turned_uv(s, t, rest_of(side), 180)
        }),
{
}

/// A locked texture does not turn with an unturned model, and mirrored faces turn
/// against the others.
pub proof fn law_locked_angle_undoes_the_turn(dir: Direction, y_rot_deg: int)
    ensures
        0 <= locked_angle(dir, y_rot_deg) < 360,
        y_rot_deg % 360 == 0 ==> locked_angle(dir, y_rot_deg) == 0,
        !seen_mirrored(dir) ==> (locked_angle(dir, y_rot_deg) + y_rot_deg) % 360 == 0,
        seen_mirrored(dir) ==> (locked_angle(dir, y_rot_deg) - y_rot_deg) % 360 == 0,
        dir is Up || dir is North || dir is East ==> (locked_angle(dir, y_rot_deg) + y_rot_deg)
            % 360 == 0,
        dir is Down || dir is South || dir is West ==> (locked_angle(dir, y_rot_deg) - y_rot_deg)
            % 360 == 0,
{
}

} // verus!
