use mesher::direction::Direction;
use mesher::face::block_face;
use mesher::uv::{turn_uv, uv_mapping, uv_mapping_is_mirrored, uvlock_angle, UvMapping, UvRun};
use mesher::vec3::{Axis, Mirrored, Vec3};

const DIRECTIONS: [Direction; 6] = [
    Direction::Down,
    Direction::Up,
    Direction::North,
    Direction::South,
    Direction::West,
    Direction::East,
];

fn unit(s: f32) -> Mirrored<f32> {
    Mirrored::new(s, 1.0 - s)
}

fn turned(s: f32, t: f32, degrees: i32) -> (f32, f32) {
    let (a, b) = turn_uv(unit(s), unit(t), degrees);
    (a.value, b.value)
}

#[test]
fn mirrored_faces() {
    assert!(uv_mapping_is_mirrored(Direction::South));
    assert!(uv_mapping_is_mirrored(Direction::West));
    assert!(uv_mapping_is_mirrored(Direction::Down));
    assert!(!uv_mapping_is_mirrored(Direction::North));
    assert!(!uv_mapping_is_mirrored(Direction::East));
    assert!(!uv_mapping_is_mirrored(Direction::Up));
}

#[test]
fn coordinates_run_across_faces() {
    let run = |axis, mirrored| UvRun { axis, mirrored };
    let down = run(Axis::Y, true);
    assert_eq!(uv_mapping(Direction::North), UvMapping { u: run(Axis::X, false), v: down });
    assert_eq!(uv_mapping(Direction::South), UvMapping { u: run(Axis::X, true), v: down });
    assert_eq!(uv_mapping(Direction::East), UvMapping { u: run(Axis::Z, false), v: down });
    assert_eq!(uv_mapping(Direction::West), UvMapping { u: run(Axis::Z, true), v: down });
    assert_eq!(
        uv_mapping(Direction::Up),
        UvMapping { u: run(Axis::X, false), v: run(Axis::Z, false) }
    );
    assert_eq!(
        uv_mapping(Direction::Down),
        UvMapping { u: run(Axis::X, false), v: run(Axis::Z, true) }
    );
}

#[test]
fn distances_are_picked_by_axis() {
    let from_low = Vec3::new(1.0f32, 2.0, 3.0);
    let to_high = Vec3::new(15.0f32, 14.0, 13.0);
    let forward = UvRun { axis: Axis::X, mirrored: false };
    let backward = UvRun { axis: Axis::Z, mirrored: true };
    assert_eq!(forward.pick(&from_low, &to_high), 1.0);
    assert_eq!(backward.pick(&from_low, &to_high), 13.0);
}

#[test]
fn a_face_shows_the_whole_texture() {
    for dir in DIRECTIONS {
        let mapping = uv_mapping(dir);
        let mut corners = Vec::new();
        for o in block_face(dir).offsets {
            let rest = Vec3::new(1 - o.x, 1 - o.y, 1 - o.z);
            corners.push((mapping.u.pick(&o, &rest), mapping.v.pick(&o, &rest)));
        }
        for wanted in [(0, 0), (0, 1), (1, 0), (1, 1)] {
            assert!(corners.contains(&wanted));
        }
        assert_eq!(corners[2], (1 - corners[0].0, 1 - corners[0].1));
        assert_eq!(corners[3], (1 - corners[1].0, 1 - corners[1].1));
    }
}

#[test]
fn textures_turn_clockwise() {
    assert_eq!(turned(0.25, 0.5, 0), (0.25, 0.5));
    assert_eq!(turned(0.25, 0.5, 90), (0.5, 0.75));
    assert_eq!(turned(0.25, 0.5, 180), (0.75, 0.5));
    assert_eq!(turned(0.25, 0.5, 270), (0.5, 0.25));
    assert_eq!(turned(0.25, 0.125, 45), (0.25, 0.125));
    assert_eq!(turned(0.25, 0.125, -90), turned(0.25, 0.125, 270));
}

#[test]
fn turning_a_texture_back_restores_it() {
    for degrees in [0, 90, 180, 270, 30] {
        let (s, t) = turn_uv(unit(0.25), unit(0.125), degrees);
        let (s, t) = turn_uv(s, t, -degrees);
        assert_eq!((s.value, t.value), (0.25, 0.125));
    }
    let (s, t) = turn_uv(unit(0.25), unit(0.125), 90);
    let (s, t) = turn_uv(s, t, 90);
    assert_eq!((s.value, t.value), turned(0.25, 0.125, 180));
}

#[test]
fn locked_textures_turn_against_the_model() {
    assert_eq!(uvlock_angle(Direction::Up, 90), 270);
    assert_eq!(uvlock_angle(Direction::North, 180), 180);
    assert_eq!(uvlock_angle(Direction::East, -90), 90);
    assert_eq!(uvlock_angle(Direction::Down, 90), 90);
    assert_eq!(uvlock_angle(Direction::South, 270), 270);
    assert_eq!(uvlock_angle(Direction::West, 45), 45);
    assert_eq!(uvlock_angle(Direction::Up, 45), 315);
    assert_eq!(uvlock_angle(Direction::Up, i32::MAX), 233);
    assert_eq!(uvlock_angle(Direction::Up, i32::MIN + 1), 127);
    for dir in DIRECTIONS {
        assert_eq!(uvlock_angle(dir, 0), 0);
        assert_eq!(uvlock_angle(dir, 720), 0);
    }
}
