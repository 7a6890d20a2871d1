use mesher::block::BlockState;
use mesher::chunk::{ChunkSectionPos, LocalSection};
use mesher::direction::Direction;
use mesher::occlusion::{ao, compute_ao};
use mesher::vec3::{IVec3, Vec3};

fn solid() -> BlockState {
    BlockState { id: 1, can_occlude: true, collision_shape_empty: false, collision_shape_full: true }
}

fn section_with(places: &[(usize, usize, usize)], state: BlockState) -> LocalSection {
    let mut blocks = Box::new([[[BlockState::air(); 18]; 18]; 18]);
    for &(x, y, z) in places {
        blocks[x][y][z] = state;
    }
    LocalSection { blocks, spos: ChunkSectionPos { x: 0, y: 0, z: 0 } }
}

fn at(x: i32, y: i32, z: i32) -> IVec3 {
    Vec3::new(x, y, z)
}

#[test]
fn all_levels() {
    assert_eq!(ao(false, false, false), 3);
    assert_eq!(ao(false, false, true), 2);
    assert_eq!(ao(true, false, false), 2);
    assert_eq!(ao(false, true, false), 2);
    assert_eq!(ao(true, false, true), 1);
    assert_eq!(ao(false, true, true), 1);
    assert_eq!(ao(true, true, false), 0);
    assert_eq!(ao(true, true, true), 0);
}

#[test]
fn open_corners_are_bright() {
    let section = section_with(&[], solid());
    assert_eq!(compute_ao(at(5, 5, 5), at(1, 1, 1), Direction::Up, &section), 3);
}

#[test]
fn blocks_above_darken_the_top() {
    let local = at(5, 5, 5);
    let top = at(1, 1, 1);
    let side1 = section_with(&[(5, 6, 6)], solid());
    let side2 = section_with(&[(6, 6, 5)], solid());
    let corner = section_with(&[(6, 6, 6)], solid());
    let both = section_with(&[(5, 6, 6), (6, 6, 5)], solid());
    let beside = section_with(&[(6, 5, 6), (6, 5, 5), (5, 6, 5)], solid());
    assert_eq!(compute_ao(local, top, Direction::Up, &side1), 2);
    assert_eq!(compute_ao(local, top, Direction::Up, &side2), 2);
    assert_eq!(compute_ao(local, top, Direction::Up, &corner), 2);
    assert_eq!(compute_ao(local, top, Direction::Up, &both), 0);
    assert_eq!(compute_ao(local, top, Direction::Up, &beside), 3);
}

#[test]
fn each_axis_has_its_own_sides() {
    let local = at(5, 5, 5);
    let corner = at(1, 1, 1);
    let level = section_with(&[(6, 5, 6)], solid());
    assert_eq!(compute_ao(local, corner, Direction::East, &level), 2);
    assert_eq!(compute_ao(local, corner, Direction::South, &level), 2);
    assert_eq!(compute_ao(local, corner, Direction::Up, &level), 3);
    let above = section_with(&[(6, 6, 5)], solid());
    assert_eq!(compute_ao(local, corner, Direction::East, &above), 2);
    assert_eq!(compute_ao(local, corner, Direction::South, &above), 3);
    let front = section_with(&[(5, 6, 6)], solid());
    assert_eq!(compute_ao(local, corner, Direction::East, &front), 3);
    assert_eq!(compute_ao(local, corner, Direction::South, &front), 2);
    let low = section_with(&[(4, 4, 4)], solid());
    assert_eq!(compute_ao(local, at(0, 0, 0), Direction::West, &low), 2);
    assert_eq!(compute_ao(local, at(0, 0, 0), Direction::North, &low), 2);
    assert_eq!(compute_ao(local, at(0, 0, 0), Direction::Down, &low), 2);
}

#[test]
fn only_full_occluding_blocks_darken() {
    let local = at(5, 5, 5);
    let top = at(1, 1, 1);
    let glass = BlockState { can_occlude: false, ..solid() };
    let slab = BlockState { collision_shape_full: false, ..solid() };
    let odd_air = BlockState { id: 0, ..solid() };
    for state in [glass, slab, odd_air] {
        let section = section_with(&[(6, 6, 6), (5, 6, 6), (6, 6, 5)], state);
        assert_eq!(compute_ao(local, top, Direction::Up, &section), 3);
    }
}

#[test]
fn outside_the_padding_nothing_darkens() {
    let blocks = Box::new([[[solid(); 18]; 18]; 18]);
    let section = LocalSection { blocks, spos: ChunkSectionPos { x: 0, y: 0, z: 0 } };
    assert_eq!(compute_ao(at(17, 17, 17), at(1, 1, 1), Direction::Up, &section), 3);
    assert_eq!(compute_ao(at(0, 0, 0), at(0, 0, 0), Direction::Down, &section), 3);
    assert_eq!(compute_ao(at(-5, 3, 40), at(1, 0, 1), Direction::East, &section), 3);
    assert_eq!(compute_ao(at(16, 16, 16), at(1, 1, 1), Direction::Up, &section), 0);
    assert_eq!(compute_ao(at(5, 5, 17), at(1, 1, 1), Direction::Up, &section), 2);
}

#[test]
fn block_states_know_what_they_hide() {
    assert!(BlockState::air().is_air());
    assert!(!solid().is_air());
    assert!(solid().occludes_face());
    assert!(solid().occludes_light());
    assert!(!BlockState::air().occludes_face());
    assert!(!BlockState::air().occludes_light());
    let slab = BlockState { collision_shape_full: false, ..solid() };
    assert!(slab.occludes_face());
    assert!(!slab.occludes_light());
    let ghost_block = BlockState { collision_shape_empty: true, ..solid() };
    assert!(!ghost_block.occludes_face());
    let glass = BlockState { can_occlude: false, ..solid() };
    assert!(!glass.occludes_face());
    let odd_air = BlockState { id: 0, ..solid() };
    assert!(!odd_air.occludes_face());
}
