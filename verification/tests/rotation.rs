use mesher::direction::Direction;
use mesher::face::{block_face, face_direction, FACE_COUNT};
use mesher::rotation::{
    normalized_degrees, rotate_corner_offset, rotate_direction, rotate_position,
};
use mesher::vec3::{Axis, IVec3, Mirrored, Vec3};

const DIRECTIONS: [Direction; 6] = [
    Direction::Down,
    Direction::Up,
    Direction::North,
    Direction::South,
    Direction::West,
    Direction::East,
];

fn with_negation(v: IVec3) -> Vec3<Mirrored<i32>> {
    Vec3::new(
        Mirrored::new(v.x, -v.x),
        Mirrored::new(v.y, -v.y),
        Mirrored::new(v.z, -v.z),
    )
}

fn turned(v: IVec3, x_rot: i32, y_rot: i32) -> IVec3 {
    let r = rotate_position(with_negation(v), x_rot, y_rot);
    Vec3::new(r.x.value, r.y.value, r.z.value)
}

#[test]
fn degrees_are_normalized() {
    assert_eq!(normalized_degrees(0), 0);
    assert_eq!(normalized_degrees(359), 359);
    assert_eq!(normalized_degrees(360), 0);
    assert_eq!(normalized_degrees(450), 90);
    assert_eq!(normalized_degrees(-90), 270);
    assert_eq!(normalized_degrees(i32::MAX), 127);
    assert_eq!(normalized_degrees(i32::MIN), 232);
}

#[test]
fn normals_point_along_the_axes() {
    assert_eq!(Direction::Down.normal(), Vec3::new(0, -1, 0));
    assert_eq!(Direction::Up.normal(), Vec3::new(0, 1, 0));
    assert_eq!(Direction::North.normal(), Vec3::new(0, 0, -1));
    assert_eq!(Direction::South.normal(), Vec3::new(0, 0, 1));
    assert_eq!(Direction::West.normal(), Vec3::new(-1, 0, 0));
    assert_eq!(Direction::East.normal(), Vec3::new(1, 0, 0));
}

#[test]
fn names_are_recognized() {
    assert_eq!(Direction::from_name("down"), Some(Direction::Down));
    assert_eq!(Direction::from_name("up"), Some(Direction::Up));
    assert_eq!(Direction::from_name("north"), Some(Direction::North));
    assert_eq!(Direction::from_name("south"), Some(Direction::South));
    assert_eq!(Direction::from_name("west"), Some(Direction::West));
    assert_eq!(Direction::from_name("east"), Some(Direction::East));
}

#[test]
fn other_names_are_not() {
    assert_eq!(Direction::from_name(""), None);
    assert_eq!(Direction::from_name("bottom"), None);
    assert_eq!(Direction::from_name("North"), None);
    assert_eq!(Direction::from_name("norths"), None);
    assert_eq!(Direction::from_name("n\u{f6}rth"), None);
}

#[test]
fn quarter_turns_about_y() {
    let east = Direction::East;
    assert_eq!(rotate_direction(Direction::North, 0, 90), east);
    assert_eq!(rotate_direction(east, 0, 90), Direction::South);
    assert_eq!(rotate_direction(east, 0, 180), Direction::West);
    assert_eq!(rotate_direction(east, 0, 270), Direction::North);
    assert_eq!(rotate_direction(Direction::Up, 0, 270), Direction::Up);
    assert_eq!(rotate_direction(Direction::Down, 0, 180), Direction::Down);
}

#[test]
fn quarter_turns_about_x() {
    assert_eq!(rotate_direction(Direction::Up, 90, 0), Direction::South);
    assert_eq!(rotate_direction(Direction::South, 90, 0), Direction::Down);
    assert_eq!(rotate_direction(Direction::North, 90, 0), Direction::Up);
    assert_eq!(rotate_direction(Direction::Up, 180, 0), Direction::Down);
    assert_eq!(rotate_direction(Direction::Up, 270, 0), Direction::North);
    assert_eq!(rotate_direction(Direction::West, 90, 0), Direction::West);
}

#[test]
fn y_turns_come_before_x_turns() {
    assert_eq!(rotate_direction(Direction::East, 90, 90), Direction::Down);
    assert_eq!(rotate_direction(Direction::North, 90, 90), Direction::East);
}

#[test]
fn angles_wrap_and_odd_angles_do_nothing() {
    for dir in DIRECTIONS {
        assert_eq!(rotate_direction(dir, 450, -270), rotate_direction(dir, 90, 90));
        assert_eq!(rotate_direction(dir, 45, 30), dir);
        assert_eq!(rotate_direction(dir, 720, -360), dir);
    }
    assert_eq!(turned(Vec3::new(1, 2, 3), 45, 30), Vec3::new(1, 2, 3));
}

#[test]
fn directions_turn_like_positions() {
    for dir in DIRECTIONS {
        for x in [0, 90, 180, 270] {
            for y in [0, 90, 180, 270] {
                assert_eq!(
                    rotate_direction(dir, x, y).normal(),
                    turned(dir.normal(), x, y)
                );
            }
        }
    }
}

#[test]
fn positions_turn_about_the_centre() {
    assert_eq!(turned(Vec3::new(1, 2, 3), 0, 90), Vec3::new(-3, 2, 1));
    assert_eq!(turned(Vec3::new(1, 2, 3), 0, 180), Vec3::new(-1, 2, -3));
    assert_eq!(turned(Vec3::new(1, 2, 3), 0, 270), Vec3::new(3, 2, -1));
    assert_eq!(turned(Vec3::new(1, 2, 3), 90, 0), Vec3::new(1, -3, 2));
    assert_eq!(turned(Vec3::new(1, 2, 3), 180, 0), Vec3::new(1, -2, -3));
    assert_eq!(turned(Vec3::new(1, 2, 3), 270, 0), Vec3::new(1, 3, -2));
    assert_eq!(turned(Vec3::new(1, 2, 3), 90, 90), Vec3::new(-3, -1, 2));
}

#[test]
fn turning_back_restores() {
    let v = Vec3::new(5, -7, 11);
    for angle in [0, 90, 180, 270, 45] {
        assert_eq!(turned(turned(v, angle, 0), -angle, 0), v);
        assert_eq!(turned(turned(v, 0, angle), 0, -angle), v);
    }
    for dir in DIRECTIONS {
        let there = rotate_direction(dir, 90, 0);
        assert_eq!(rotate_direction(there, -90, 0), dir);
    }
}

#[test]
fn corners_turn_like_positions() {
    assert_eq!(rotate_corner_offset(Vec3::new(0, 1, 0), 0, 90), Vec3::new(1, 1, 0));
    assert_eq!(rotate_corner_offset(Vec3::new(1, 0, 0), 0, 90), Vec3::new(1, 0, 1));
    assert_eq!(rotate_corner_offset(Vec3::new(0, 1, 0), 90, 0), Vec3::new(0, 1, 1));
    assert_eq!(rotate_corner_offset(Vec3::new(1, 1, 1), 180, 180), Vec3::new(0, 0, 1));
}

#[test]
fn far_offsets_snap_to_corners() {
    let far = Vec3::new(i32::MAX, i32::MIN, 7);
    assert_eq!(rotate_corner_offset(far, 0, 0), Vec3::new(1, 0, 1));
    assert_eq!(rotate_corner_offset(far, 0, 180), Vec3::new(0, 0, 0));
}

#[test]
fn corners_stay_on_their_face() {
    for index in 0..FACE_COUNT {
        let face = block_face(face_direction(index));
        for x in [0, 90, 180, 270] {
            for y in [0, 90, 180, 270] {
                let dir = rotate_direction(face.dir, x, y);
                let n = dir.normal();
                let mut seen = Vec::new();
                for offset in face.offsets {
                    let c = rotate_corner_offset(offset, x, y);
                    let along = (2 * c.x - 1) * n.x + (2 * c.y - 1) * n.y + (2 * c.z - 1) * n.z;
                    assert_eq!(along, 1);
                    assert!(!seen.contains(&c));
                    seen.push(c);
                }
            }
        }
    }
}

#[test]
fn faces_come_in_order() {
    let order: Vec<Direction> = (0..FACE_COUNT).map(face_direction).collect();
    assert_eq!(
        order,
        vec![
            Direction::Up,
            Direction::Down,
            Direction::South,
            Direction::North,
            Direction::East,
            Direction::West,
        ]
    );
    assert_eq!(
        block_face(Direction::Up).offsets,
        [Vec3::new(0, 1, 0), Vec3::new(0, 1, 1), Vec3::new(1, 1, 1), Vec3::new(1, 1, 0)]
    );
    assert_eq!(
        block_face(Direction::Down).offsets,
        [Vec3::new(0, 0, 0), Vec3::new(1, 0, 0), Vec3::new(1, 0, 1), Vec3::new(0, 0, 1)]
    );
    assert_eq!(
        block_face(Direction::South).offsets,
        [Vec3::new(0, 0, 1), Vec3::new(1, 0, 1), Vec3::new(1, 1, 1), Vec3::new(0, 1, 1)]
    );
    assert_eq!(
        block_face(Direction::North).offsets,
        [Vec3::new(0, 0, 0), Vec3::new(0, 1, 0), Vec3::new(1, 1, 0), Vec3::new(1, 0, 0)]
    );
    assert_eq!(
        block_face(Direction::East).offsets,
        [Vec3::new(1, 0, 0), Vec3::new(1, 1, 0), Vec3::new(1, 1, 1), Vec3::new(1, 0, 1)]
    );
    assert_eq!(
        block_face(Direction::West).offsets,
        [Vec3::new(0, 0, 0), Vec3::new(0, 0, 1), Vec3::new(0, 1, 1), Vec3::new(0, 1, 0)]
    );
}

#[test]
fn faces_wind_outwards() {
    for dir in DIRECTIONS {
        let o = block_face(dir).offsets;
        let (a, b, c) = (o[0], o[1], o[2]);
        let (ux, uy, uz) = (b.x - a.x, b.y - a.y, b.z - a.z);
        let (vx, vy, vz) = (c.x - a.x, c.y - a.y, c.z - a.z);
        let n = Vec3::new(uy * vz - uz * vy, uz * vx - ux * vz, ux * vy - uy * vx);
        assert_eq!(n, dir.normal());
    }
}

#[test]
fn components_are_read_by_axis() {
    let v = Vec3::new(4, 5, 6);
    assert_eq!(v.component(Axis::X), 4);
    assert_eq!(v.component(Axis::Y), 5);
    assert_eq!(v.component(Axis::Z), 6);
    assert_eq!(v.plus(Vec3::new(1, -2, 3)), Vec3::new(5, 3, 9));
    assert_eq!(Mirrored::new(1, 2).flipped(), Mirrored::new(2, 1));
}
