//! Quarter turns of block models.
//!
//! A block state turns its model about the Y axis and then about the X axis, in
//! steps of 90 degrees. Any other angle leaves the model as it is.

use crate::direction::Direction;
use crate::vec3::{cross, dot, Axis, IVec3, Mirrored, Vec3};
use vstd::prelude::*;

verus! {

/// Brings an angle in degrees into the range from 0 to 359.
pub fn normalized_degrees(degrees: i32) -> (r: i32)
    ensures
        r == degrees as int % 360,
        0 <= r < 360,
{
    match degrees.checked_rem_euclid(360) {
        Some(r) => r,
        None => 0,
    }
}

/// A triple turned about the Y axis, where `neg` negates a component.
pub open spec fn turn_y<T>(p: Vec3<T>, neg: spec_fn(T) -> T, degrees: int) -> Vec3<T> {
    if degrees % 360 == 90 {
        Vec3 { x: neg(p.z), y: p.y, z: p.x }
    } else if degrees % 360 == 180 {
        Vec3 { x: neg(p.x), y: p.y, z: neg(p.z) }
    } else if degrees % 360 == 270 {
        Vec3 { x: p.z, y: p.y, z: neg(p.x) }
    } else {
        p
    }
}

/// A triple turned about the X axis, where `neg` negates a component.
pub open spec fn turn_x<T>(p: Vec3<T>, neg: spec_fn(T) -> T, degrees: int) -> Vec3<T> {
    if degrees % 360 == 90 {
        Vec3 { x: p.x, y: neg(p.z), z: p.y }
    } else if degrees % 360 == 180 {
        Vec3 { x: p.x, y: neg(p.y), z: neg(p.z) }
    } else if degrees % 360 == 270 {
        Vec3 { x: p.x, y: p.z, z: neg(p.y) }
    } else {
        p
    }
}

/// A triple turned about the Y axis and then about the X axis.
pub open spec fn turned<T>(p: Vec3<T>, neg: spec_fn(T) -> T, x_rot: int, y_rot: int) -> Vec3<T> {
    turn_x(turn_y(p, neg, y_rot), neg, x_rot)
}

/// Negation of integers.
pub open spec fn negate() -> spec_fn(int) -> int {
    |i: int| -i
}

/// Negation of values that carry their mirror image.
pub open spec fn flip<T>() -> spec_fn(Mirrored<T>) -> Mirrored<T> {
    |m: Mirrored<T>| m.flip()
}

/// An integer triple turned about the Y axis and then about the X axis.
pub open spec fn turned_int(p: Vec3<int>, x_rot: int, y_rot: int) -> Vec3<int> {
    turned(p, negate(), x_rot, y_rot)
}

/// The direction that the quarter turns carry `dir` to.
pub open spec fn turned_direction(dir: Direction, x_rot: int, y_rot: int) -> Direction {
    choose|d: Direction| #[trigger] d.unit() == turned_int(dir.unit(), x_rot, y_rot)
}

/// Turns a position, given by its distances from the centre of rotation along
/// each axis. Each distance comes with its negation.
pub fn rotate_position<T: Copy>(p: Vec3<Mirrored<T>>, x_rot: i32, y_rot: i32) -> (r: Vec3<Mirrored<T>>)
    ensures
        r == turned(p, flip(), x_rot as int, y_rot as int),
{
    let y_turn: i32 = normalized_degrees(y_rot);
    let q: Vec3<Mirrored<T>> = if y_turn == 90 {
        Vec3 { x: p.z.flipped(), y: p.y, z: p.x }
    } else if y_turn == 180 {
        Vec3 { x: p.x.flipped(), y: p.y, z: p.z.flipped() }
    } else if y_turn == 270 {
        Vec3 { x: p.z, y: p.y, z: p.x.flipped() }
    } else {
        p
    };
    assert(q == turn_y(p, flip(), y_rot as int));
    let x_turn: i32 = normalized_degrees(x_rot);
    if x_turn == 90 {
        Vec3 { x: q.x, y: q.z.flipped(), z: q.y }
    } else if x_turn == 180 {
        Vec3 { x: q.x, y: q.y.flipped(), z: q.z.flipped() }
    } else if x_turn == 270 {
        Vec3 { x: q.x, y: q.z, z: q.y.flipped() }
    } else {
        q
    }
}

/// Turns a direction: about the Y axis first, then about the X axis.
pub fn rotate_direction(dir: Direction, x_rot: i32, y_rot: i32) -> (r: Direction)
    ensures
        r.unit() == turned_int(dir.unit(), x_rot as int, y_rot as int),
        r == turned_direction(dir, x_rot as int, y_rot as int),
{
    let y_turn: i32 = normalized_degrees(y_rot);
    let d: Direction = if y_turn == 90 {
        match dir {
            Direction::North => Direction::East,
            Direction::East => Direction::South,
            Direction::South => Direction::West,
            Direction::West => Direction::North,
            other => other,
        }
    } else if y_turn == 180 {
        match dir {
            Direction::North => Direction::South,
            Direction::South => Direction::North,
            Direction::East => Direction::West,
            Direction::West => Direction::East,
            other => other,
        }
    } else if y_turn == 270 {
        match dir {
            Direction::North => Direction::West,
            Direction::West => Direction::South,
            Direction::South => Direction::East,
            Direction::East => Direction::North,
            other => other,
        }
    } else {
        dir
    };
    assert(d.unit() == turn_y(dir.unit(), negate(), y_rot as int));
    let x_turn: i32 = normalized_degrees(x_rot);
    let r: Direction = if x_turn == 90 {
        match d {
            Direction::Up => Direction::South,
            Direction::South => Direction::Down,
            Direction::Down => Direction::North,
            Direction::North => Direction::Up,
            other => other,
        }
    } else if x_turn == 180 {
        match d {
            Direction::Up => Direction::Down,
            Direction::Down => Direction::Up,
            Direction::North => Direction::South,
            Direction::South => Direction::North,
            other => other,
        }
    } else if x_turn == 270 {
        match d {
            Direction::Up => Direction::North,
            Direction::North => Direction::Down,
            Direction::Down => Direction::South,
            Direction::South => Direction::Up,
            other => other,
        }
    } else {
        d
    };
    proof {
        lemma_unit_identifies(r, turned_direction(dir, x_rot as int, y_rot as int));
    }
    r
}

/// Two directions with the same unit step are the same.
pub proof fn lemma_unit_identifies(a: Direction, b: Direction)
    requires
        a.unit() == b.unit(),
    ensures
        a == b,
{
}

/// Twice the distance of a block corner from the centre of its block. The corner
/// at offset 0 lies below the centre and the one at offset 1 above it.
pub open spec fn centred(offset: Vec3<int>) -> Vec3<int> {
    Vec3 { x: 2 * offset.x - 1, y: 2 * offset.y - 1, z: 2 * offset.z - 1 }
}

/// The corner on the same side of the centre as `p` along every axis.
pub open spec fn nearest_corner(p: Vec3<int>) -> Vec3<int> {
    Vec3 {
        x: if p.x > 0 { 1 } else { 0 },
        y: if p.y > 0 { 1 } else { 0 },
        z: if p.z > 0 { 1 } else { 0 },
    }
}

/// The corner that the quarter turns about the block centre carry `offset` to.
pub open spec fn turned_corner(offset: Vec3<int>, x_rot: int, y_rot: int) -> Vec3<int> {
    nearest_corner(turned_int(centred(offset), x_rot, y_rot))
}

/// Turns a block corner about the block centre, the same way as positions, and
/// snaps every component to 0 or 1.
pub fn rotate_corner_offset(offset: IVec3, x_rot: i32, y_rot: i32) -> (r: IVec3)
    ensures
        r.to_int() == turned_corner(offset.to_int(), x_rot as int, y_rot as int),
{
    let above: Vec3<Mirrored<bool>> = Vec3 {
        x: Mirrored::new(offset.x >= 1, offset.x < 1),
        y: Mirrored::new(offset.y >= 1, offset.y < 1),
        z: Mirrored::new(offset.z >= 1, offset.z < 1),
    };
    let r: Vec3<Mirrored<bool>> = rotate_position(above, x_rot, y_rot);
    let ghost half = centred(offset.to_int());
    let ghost q = turn_y(above, flip(), y_rot as int);
    let ghost h = turn_y(half, negate(), y_rot as int);
    assert(q.x.value == (h.x > 0) && q.x.image == (h.x < 0));
    assert(q.y.value == (h.y > 0) && q.y.image == (h.y < 0));
    assert(q.z.value == (h.z > 0) && q.z.image == (h.z < 0));
    Vec3 {
        x: if r.x.value { 1 } else { 0 },
        y: if r.y.value { 1 } else { 0 },
        z: if r.z.value { 1 } else { 0 },
    }
}

/// Whether `offset` names a corner of the unit block.
pub open spec fn is_corner(offset: Vec3<int>) -> bool {
    &&& 0 <= offset.x <= 1
    &&& 0 <= offset.y <= 1
    &&& 0 <= offset.z <= 1
}

/// Whether the corner `offset` lies on the face of the block that points in
/// direction `dir`.
pub open spec fn corner_on_face(offset: Vec3<int>, dir: Direction) -> bool {
    offset.along(dir.axis()) == (if dir.is_positive() { 1int } else { 0int })
}

/// A quarter turn about the Y axis carries east to south and south to west; a
/// quarter turn about the X axis carries up to south and south to down.
pub proof fn law_quarter_turns(p: Vec3<int>, degrees: int)
    requires
        degrees % 360 == 90,
    ensures
        turned_int(p, 0, degrees) == (Vec3 { x: -p.z, y: p.y, z: p.x }),
        turned_int(p, degrees, 0) == (Vec3 { x: p.x, y: -p.z, z: p.y }),
{
}

/// Quarter turns about one axis add up.
pub proof fn law_quarter_turns_add_up(p: Vec3<int>, a: int, b: int)
    requires
        a % 90 == 0,
        b % 90 == 0,
    ensures
        turned_int(turned_int(p, 0, a), 0, b) == turned_int(p, 0, a + b),
        turned_int(turned_int(p, a, 0), b, 0) == turned_int(p, a + b, 0),
{
}

/// The turn about the Y axis comes before the turn about the X axis.
pub proof fn law_y_turns_come_first(p: Vec3<int>, x_rot: int, y_rot: int)
    ensures
        turned_int(p, x_rot, y_rot) == turned_int(turned_int(p, 0, y_rot), x_rot, 0),
{
}

/// Distances that carry their negation turn into distances that carry their
/// negation, and as the plain distances do.
pub proof fn law_mirrored_positions_turn_alike(
    p: Vec3<Mirrored<int>>,
    q: Vec3<int>,
    x_rot: int,
    y_rot: int,
)
    requires
        p.x.value == q.x && p.x.image == -q.x,
        p.y.value == q.y && p.y.image == -q.y,
        p.z.value == q.z && p.z.image == -q.z,
    ensures
        ({
            let r = turned(p, flip(), x_rot, y_rot);
            let s = turned_int(q, x_rot, y_rot);
            &&& r.x.value == s.x && r.x.image == -s.x
            &&& r.y.value == s.y && r.y.image == -s.y
            &&& r.z.value == s.z && r.z.image == -s.z
        }),
{
}

/// A block corner turns about the centre of its block, which lies half a block from
/// every corner. Offsets beyond the block count as the corner next to them.
pub proof fn law_corners_turn_about_the_centre(
    offset: Vec3<int>,
    corner: Vec3<int>,
    x_rot: int,
    y_rot: int,
)
    requires
        corner.x == 0 && offset.x <= 0 || corner.x == 1 && offset.x >= 1,
        corner.y == 0 && offset.y <= 0 || corner.y == 1 && offset.y >= 1,
        corner.z == 0 && offset.z <= 0 || corner.z == 1 && offset.z >= 1,
    ensures
        ({
            let t = turned_corner(offset, x_rot, y_rot);
            let doubled = Vec3 { x: 2 * corner.x - 1, y: 2 * corner.y - 1, z: 2 * corner.z - 1 };
            turned_int(doubled, x_rot, y_rot) == Vec3 {
                x: 2 * t.x - 1,
                y: 2 * t.y - 1,
                z: 2 * t.z - 1,
            }
        }),
{
    let doubled = Vec3 { x: 2 * corner.x - 1, y: 2 * corner.y - 1, z: 2 * corner.z - 1 };
    let h = turn_y(doubled, negate(), y_rot);
    let g = turn_y(centred(offset), negate(), y_rot);
    assert((h.x == 1 && g.x > 0) || (h.x == -1 && g.x < 0));
    assert((h.y == 1 && g.y > 0) || (h.y == -1 && g.y < 0));
    assert((h.z == 1 && g.z > 0) || (h.z == -1 && g.z < 0));
}

/// Angles that differ by whole turns turn a position alike.
pub proof fn law_whole_turns_do_nothing(
    p: Vec3<int>,
    x_rot: int,
    y_rot: int,
    x_turns: int,
    y_turns: int,
)
    ensures
        turned_int(p, x_rot + 360 * x_turns, y_rot + 360 * y_turns) == turned_int(p, x_rot, y_rot),
{
}

/// Angles that are no quarter turns leave a position where it is.
pub proof fn law_other_angles_do_nothing(p: Vec3<int>, x_rot: int, y_rot: int)
    requires
        x_rot % 90 != 0 || x_rot % 360 == 0,
        y_rot % 90 != 0 || y_rot % 360 == 0,
    ensures
        turned_int(p, x_rot, y_rot) == p,
{
}

/// Turning about one axis and back again restores a position.
pub proof fn law_turning_back_restores(p: Vec3<int>, degrees: int)
    ensures
        turned_int(turned_int(p, degrees, 0), -degrees, 0) == p,
        turned_int(turned_int(p, 0, degrees), 0, -degrees) == p,
{
}

/// Every direction turns into the direction whose unit step is the turned unit
/// step: faces turn the way positions do.
pub proof fn law_directions_turn_like_positions(dir: Direction, x_rot: int, y_rot: int)
    ensures
        turned_direction(dir, x_rot, y_rot).unit() == turned_int(dir.unit(), x_rot, y_rot),
{
    let h = turn_y(dir.unit(), negate(), y_rot);
    let d = if h == Direction::East.unit() {
        Direction::East
    } else if h == Direction::West.unit() {
        Direction::West
    } else if h == Direction::South.unit() {
        Direction::South
    } else if h == Direction::North.unit() {
        Direction::North
    } else {
        dir
    };
    assert(d.unit() == h);
    let t = turn_x(h, negate(), x_rot);
    assert(t == Direction::East.unit() || t == Direction::West.unit() || t == Direction::South.unit()
        || t == Direction::North.unit() || t == Direction::Up.unit() || t == Direction::Down.unit());
}

/// Different directions stay different when they are turned.
pub proof fn law_turns_keep_directions_apart(a: Direction, b: Direction, x_rot: int, y_rot: int)
    requires
        turned_direction(a, x_rot, y_rot) == turned_direction(b, x_rot, y_rot),
    ensures
        a == b,
{
    law_directions_turn_like_positions(a, x_rot, y_rot);
    law_directions_turn_like_positions(b, x_rot, y_rot);
    assert(turn_y(a.unit(), negate(), y_rot) == turn_y(b.unit(), negate(), y_rot));
    lemma_unit_identifies(a, b);
}

/// Turning a direction about one axis and back again restores it.
pub proof fn law_turning_a_direction_back_restores(dir: Direction, degrees: int)
    ensures
        turned_direction(turned_direction(dir, degrees, 0), -degrees, 0) == dir,
        turned_direction(turned_direction(dir, 0, degrees), 0, -degrees) == dir,
{
    let a = turned_direction(dir, degrees, 0);
    let b = turned_direction(dir, 0, degrees);
    law_directions_turn_like_positions(dir, degrees, 0);
    law_directions_turn_like_positions(dir, 0, degrees);
    law_directions_turn_like_positions(a, -degrees, 0);
    law_directions_turn_like_positions(b, 0, -degrees);
    law_turning_back_restores(dir.unit(), degrees);
    lemma_unit_identifies(turned_direction(a, -degrees, 0), dir);
    lemma_unit_identifies(turned_direction(b, 0, -degrees), dir);
}

/// The corners of a block turn into corners of the block, and different corners
/// into different ones.
pub proof fn law_corners_turn_into_corners(
    a: Vec3<int>,
    b: Vec3<int>,
    x_rot: int,
    y_rot: int,
)
    requires
        is_corner(a),
        is_corner(b),
    ensures
        is_corner(turned_corner(a, x_rot, y_rot)),
        centred(turned_corner(a, x_rot, y_rot)) == turned_int(centred(a), x_rot, y_rot),
        turned_corner(a, x_rot, y_rot) == turned_corner(b, x_rot, y_rot) ==> a == b,
{
    lemma_turned_corner_is_exact(a, x_rot, y_rot);
    lemma_turned_corner_is_exact(b, x_rot, y_rot);
    if turned_corner(a, x_rot, y_rot) == turned_corner(b, x_rot, y_rot) {
        assert(turn_y(centred(a), negate(), y_rot) == turn_y(centred(b), negate(), y_rot));
    }
}

proof fn lemma_turned_corner_is_exact(a: Vec3<int>, x_rot: int, y_rot: int)
    requires
        is_corner(a),
    ensures
        centred(turned_corner(a, x_rot, y_rot)) == turned_int(centred(a), x_rot, y_rot),
{
    let h = turn_y(centred(a), negate(), y_rot);
    assert(h.x == 1 || h.x == -1);
    assert(h.y == 1 || h.y == -1);
    assert(h.z == 1 || h.z == -1);
}

/// A corner on a face of the block turns into a corner on the turned face.
pub proof fn law_corners_stay_on_their_face(
    offset: Vec3<int>,
    dir: Direction,
    x_rot: int,
    y_rot: int,
)
    requires
        is_corner(offset),
    ensures
        corner_on_face(offset, dir) == corner_on_face(
            turned_corner(offset, x_rot, y_rot),
            turned_direction(dir, x_rot, y_rot),
        ),
{
    lemma_turned_corner_is_exact(offset, x_rot, y_rot);
    law_directions_turn_like_positions(dir, x_rot, y_rot);
    let t = turned_direction(dir, x_rot, y_rot);
    let c = centred(offset);
    let u = dir.unit();
    let tc = turned_int(c, x_rot, y_rot);
    assert(corner_on_face(offset, dir) <==> c.along(dir.axis()) == u.along(dir.axis()));
    assert(corner_on_face(turned_corner(offset, x_rot, y_rot), t) <==> tc.along(t.axis())
        == t.unit().along(t.axis()));
    let h = turn_y(c, negate(), y_rot);
    let g = turn_y(u, negate(), y_rot);
    assert(c.along(dir.axis()) == u.along(dir.axis()) <==> (
        (g.x != 0 ==> h.x == g.x) && (g.y != 0 ==> h.y == g.y) && (g.z != 0 ==> h.z == g.z)
    ));
}

/// Quarter turns keep the sense of rotation: the cross product of two turned
/// triples is the turned cross product, so that no turn reverses a winding.
pub proof fn law_turns_keep_winding(a: Vec3<int>, b: Vec3<int>, x_rot: int, y_rot: int)
    ensures
        cross(turned_int(a, x_rot, y_rot), turned_int(b, x_rot, y_rot)) == turned_int(
            cross(a, b),
            x_rot,
            y_rot,
        ),
{
    let ha = turn_y(a, negate(), y_rot);
    let hb = turn_y(b, negate(), y_rot);
    lemma_products(a, b);
    lemma_products(ha, hb);
    assert(cross(ha, hb) == turn_y(cross(a, b), negate(), y_rot));
}

/// Quarter turns keep lengths and angles: the dot product of two turned triples is
/// that of the triples.
pub proof fn law_turns_keep_angles(a: Vec3<int>, b: Vec3<int>, x_rot: int, y_rot: int)
    ensures
        dot(turned_int(a, x_rot, y_rot), turned_int(b, x_rot, y_rot)) == dot(a, b),
{
    let ha = turn_y(a, negate(), y_rot);
    let hb = turn_y(b, negate(), y_rot);
    lemma_products(a, b);
    lemma_products(ha, hb);
    assert(dot(ha, hb) == dot(a, b));
}

/// How signs move through the products of the components of two triples.
proof fn lemma_products(a: Vec3<int>, b: Vec3<int>)
    ensures
        a == (Vec3 { x: a.along(Axis::X), y: a.along(Axis::Y), z: a.along(Axis::Z) }),
        b == (Vec3 { x: b.along(Axis::X), y: b.along(Axis::Y), z: b.along(Axis::Z) }),
        forall|i: Axis, j: Axis|
            #![trigger a.along(i), b.along(j)]
            (-a.along(i)) * b.along(j) == -(a.along(i) * b.along(j)) && a.along(i) * (-b.along(j))
                == -(a.along(i) * b.along(j)) && (-a.along(i)) * (-b.along(j)) == a.along(i)
                * b.along(j),
{
    assert forall|i: Axis, j: Axis|
        #![trigger a.along(i), b.along(j)]
        (-a.along(i)) * b.along(j) == -(a.along(i) * b.along(j)) && a.along(i) * (-b.along(j))
            == -(a.along(i) * b.along(j)) && (-a.along(i)) * (-b.along(j)) == a.along(i)
            * b.along(j) by {
        let u = a.along(i);
        let v = b.along(j);
        assert((-u) * v == -(u * v) && u * (-v) == -(u * v) && (-u) * (-v) == u * v)
            by (nonlinear_arith);
    }
}

} // verus!
