//! The six faces of a block and the order of their corners.

use crate::assets::box_corner;
use crate::direction::Direction;
use crate::rotation::{
    corner_on_face, is_corner, law_directions_turn_like_positions, law_turns_keep_angles,
    law_turns_keep_winding, turned_direction, turned_int,
};
use crate::vec3::{cross, dot, vec_sub, Axis, IVec3, Vec3};
use vstd::prelude::*;

verus! {

/// A face of a block: where it points and which corners it spans. The order of
/// the corners decides how a texture lies on the face and which side of its
/// triangles is the front.
#[derive(Clone, Copy, Debug, PartialEq, Eq)]
pub struct Face {
    pub offsets: [IVec3; 4],
    pub dir: Direction,
}

/// The number of faces of a block.
pub const FACE_COUNT: usize = 6;

/// The direction of each face, in the order in which faces are laid out.
pub open spec fn face_dir(face: int) -> Direction {
    if face == 0 {
        Direction::Up
    } else if face == 1 {
        Direction::Down
    } else if face == 2 {
        Direction::South
    } else if face == 3 {
        Direction::North
    } else if face == 4 {
        Direction::East
    } else {
        Direction::West
    }
}

/// The corners of the face in direction `dir`, in order.
pub open spec fn face_corners(dir: Direction) -> Seq<Vec3<int>> {
    match dir {
        Direction::Up => seq![corner(0, 1, 0), corner(0, 1, 1), corner(1, 1, 1), corner(1, 1, 0)],
        Direction::Down => seq![corner(0, 0, 0), corner(1, 0, 0), corner(1, 0, 1), corner(0, 0, 1)],
        Direction::South => seq![
            corner(0, 0, 1),
            corner(1, 0, 1),
            corner(1, 1, 1),
            corner(0, 1, 1),
        ],
        Direction::North => seq![
            corner(0, 0, 0),
            corner(0, 1, 0),
            corner(1, 1, 0),
            corner(1, 0, 0),
        ],
        Direction::East => seq![corner(1, 0, 0), corner(1, 1, 0), corner(1, 1, 1), corner(1, 0, 1)],
        Direction::West => seq![corner(0, 0, 0), corner(0, 0, 1), corner(0, 1, 1), corner(0, 1, 0)],
    }
}

/// The corner at the given offsets along the three axes.
pub open spec fn corner(x: int, y: int, z: int) -> Vec3<int> {
    Vec3 { x, y, z }
}

impl Face {
    /// Whether this is the face in direction `dir`.
    pub open spec fn is_face(self, dir: Direction) -> bool {
        &&& self.dir == dir
        &&& forall|i: int|
            0 <= i < 4 ==> (#[trigger] self.offsets@[i]).to_int() == face_corners(dir)[i]
    }
}

/// The direction of face number `index`, in the order in which faces are laid out.
pub fn face_direction(index: usize) -> (dir: Direction)
    requires
        index < FACE_COUNT,
    ensures
        dir == face_dir(index as int),
        dir is Up <==> index == 0,
        dir is Down <==> index == 1,
        dir is South <==> index == 2,
        dir is North <==> index == 3,
        dir is East <==> index == 4,
        dir is West <==> index == 5,
{
    if index == 0 {
        Direction::Up
    } else if index == 1 {
        Direction::Down
    } else if index == 2 {
        Direction::South
    } else if index == 3 {
        Direction::North
    } else if index == 4 {
        Direction::East
    } else {
        Direction::West
    }
}

/// The face of a block in direction `dir`.
pub fn block_face(dir: Direction) -> (face: Face)
    ensures
        face.is_face(dir),
{
    let o: IVec3 = Vec3::new(0, 0, 0);
    let x: IVec3 = Vec3::new(1, 0, 0);
    let y: IVec3 = Vec3::new(0, 1, 0);
    let z: IVec3 = Vec3::new(0, 0, 1);
    let xy: IVec3 = Vec3::new(1, 1, 0);
    let xz: IVec3 = Vec3::new(1, 0, 1);
    let yz: IVec3 = Vec3::new(0, 1, 1);
    let xyz: IVec3 = Vec3::new(1, 1, 1);
    match dir {
        Direction::Up => Face { offsets: [y, yz, xyz, xy], dir },
        Direction::Down => Face { offsets: [o, x, xz, z], dir },
        Direction::South => Face { offsets: [z, xz, xyz, yz], dir },
        Direction::North => Face { offsets: [o, y, xy, x], dir },
        Direction::East => Face { offsets: [x, xy, xyz, xz], dir },
        Direction::West => Face { offsets: [o, z, yz, y], dir },
    }
}

/// Every direction has exactly one face.
pub proof fn law_every_direction_has_one_face(dir: Direction)
    ensures
        exists|i: int| 0 <= i < FACE_COUNT && #[trigger] face_dir(i) == dir,
        forall|i: int, j: int|
            0 <= i < FACE_COUNT && 0 <= j < FACE_COUNT && #[trigger] face_dir(i)
                == #[trigger] face_dir(j) ==> i == j,
{
    assert(face_dir(0) is Up);
    assert(face_dir(1) is Down);
    assert(face_dir(2) is South);
    assert(face_dir(3) is North);
    assert(face_dir(4) is East);
    assert(face_dir(5) is West);
}

/// The corners of a face are the four corners of the block on that side of it.
pub proof fn law_faces_span_their_side(dir: Direction, offset: Vec3<int>)
    ensures
        face_corners(dir).len() == 4,
        face_corners(dir).contains(offset) <==> is_corner(offset) && corner_on_face(offset, dir),
        face_corners(dir).no_duplicates(),
{
    let c = face_corners(dir);
    assert(is_corner(c[0]) && corner_on_face(c[0], dir));
    assert(is_corner(c[1]) && corner_on_face(c[1], dir));
    assert(is_corner(c[2]) && corner_on_face(c[2], dir));
    assert(is_corner(c[3]) && corner_on_face(c[3], dir));
    if is_corner(offset) && corner_on_face(offset, dir) {
        assert(offset == c[0] || offset == c[1] || offset == c[2] || offset == c[3]);
    }
}

/// A face lies in its direction and has the corners of that direction, in order.
pub proof fn law_faces_have_their_corners(face: Face, dir: Direction, i: int)
    requires
        face.is_face(dir),
        0 <= i < 4,
    ensures
        face.dir == dir,
        face.offsets@[i].x == face_corners(dir)[i].x,
        face.offsets@[i].y == face_corners(dir)[i].y,
        face.offsets@[i].z == face_corners(dir)[i].z,
{
    assert(face.offsets@[i].to_int() == face_corners(dir)[i]);
}

/// The corners of a face start at its low end on both axes along the face, end at
/// its high end across from there, and are those of a rectangle.
pub proof fn law_faces_start_at_their_low_corner(dir: Direction, axis: Axis)
    ensures
        ({
            let c = face_corners(dir);
            &&& dir.unit().along(axis) == 0 ==> c[0].along(axis) == 0 && c[2].along(axis) == 1
            &&& dir.unit().along(axis) == 1 ==> c[0].along(axis) == 1 && c[2].along(axis) == 1
            &&& dir.unit().along(axis) == -1 ==> c[0].along(axis) == 0 && c[2].along(axis) == 0
            &&& c[1].along(axis) + c[3].along(axis) == c[0].along(axis) + c[2].along(axis)
        }),
{
}

/// Faces are laid out from top and bottom over south and north to east and west:
/// by axis Y, Z, X, and the positive side of each axis first.
pub proof fn law_order_of_faces(face: int)
    requires
        0 <= face < FACE_COUNT,
    ensures
        face / 2 == 0 <==> face_dir(face).unit().y != 0,
        face / 2 == 1 <==> face_dir(face).unit().z != 0,
        face / 2 == 2 <==> face_dir(face).unit().x != 0,
        face % 2 == 0 <==> face_dir(face).unit().x + face_dir(face).unit().y + face_dir(
            face,
        ).unit().z == 1,
{
}

/// The corners of a face run around it so that its front points outwards. This
/// holds of every box from `from` to `to`, however it is turned: such faces are
/// never inverted.
pub proof fn law_faces_wind_outwards(
    dir: Direction,
    from: Vec3<int>,
    to: Vec3<int>,
    x_rot: int,
    y_rot: int,
)
    requires
        from.x <= to.x,
        from.y <= to.y,
        from.z <= to.z,
    ensures
        ({
            let c = face_corners(dir);
            let side = vec_sub(box_corner(c[1], from, to), box_corner(c[0], from, to));
            let diagonal = vec_sub(box_corner(c[2], from, to), box_corner(c[0], from, to));
            let front = cross(
                turned_int(side, x_rot, y_rot),
                turned_int(diagonal, x_rot, y_rot),
            );
            &&& front == turned_int(cross(side, diagonal), x_rot, y_rot)
            &&& dot(front, turned_direction(dir, x_rot, y_rot).unit()) >= 0
            &&& from.x < to.x && from.y < to.y && from.z < to.z ==> dot(
                front,
                turned_direction(dir, x_rot, y_rot).unit(),
            ) > 0
        }),
{
    let c = face_corners(dir);
    let side = vec_sub(box_corner(c[1], from, to), box_corner(c[0], from, to));
    let diagonal = vec_sub(box_corner(c[2], from, to), box_corner(c[0], from, to));
    let (x, y, z) = (to.x - from.x, to.y - from.y, to.z - from.z);
    assert(x * y >= 0 && y * z >= 0 && z * x >= 0) by (nonlinear_arith)
        requires
            x >= 0,
            y >= 0,
            z >= 0,
    ;
    if x > 0 && y > 0 && z > 0 {
        assert(x * y > 0 && y * z > 0 && z * x > 0) by (nonlinear_arith)
            requires
                x > 0,
                y > 0,
                z > 0,
        ;
    }
    let area = match dir.axis() {
        Axis::X => y * z,
        Axis::Y => z * x,
        Axis::Z => x * y,
    };
    assert(dot(cross(side, diagonal), dir.unit()) == area) by {
        broadcast use vstd::arithmetic::mul::group_mul_basics;

        match dir {
            Direction::Up => {
                assert(side == corner(0, 0, z) && diagonal == corner(x, 0, z));
            },
            Direction::Down => {
                assert(side == corner(x, 0, 0) && diagonal == corner(x, 0, z));
                vstd::arithmetic::mul::lemma_mul_is_commutative(x, z);
                lemma_times_minus_one(cross(side, diagonal).y, dir.unit().y);
            },
            Direction::South => {
                assert(side == corner(x, 0, 0) && diagonal == corner(x, y, 0));
            },
            Direction::North => {
                assert(side == corner(0, y, 0) && diagonal == corner(x, y, 0));
                vstd::arithmetic::mul::lemma_mul_is_commutative(y, x);
                lemma_times_minus_one(cross(side, diagonal).z, dir.unit().z);
            },
            Direction::East => {
                assert(side == corner(0, y, 0) && diagonal == corner(0, y, z));
            },
            Direction::West => {
                assert(side == corner(0, 0, z) && diagonal == corner(0, y, z));
                vstd::arithmetic::mul::lemma_mul_is_commutative(z, y);
                lemma_times_minus_one(cross(side, diagonal).x, dir.unit().x);
            },
        }
    }
    law_turns_keep_winding(side, diagonal, x_rot, y_rot);
    law_directions_turn_like_positions(dir, x_rot, y_rot);
    law_turns_keep_angles(cross(side, diagonal), dir.unit(), x_rot, y_rot);
}

proof fn lemma_times_minus_one(a: int, b: int)
    by (nonlinear_arith)
    requires
        b == -1,
    ensures
        a * b == -a,
{
}

} // verus!
