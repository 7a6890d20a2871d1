use mesher::block::BlockState;
use mesher::chunk::{
    section_window, Chunk, ChunkPos, ChunkSectionPos, LocalChunk, Section, EAST, NE, NORTH, NW, SE,
    SOUTH, SW, WEST,
};
use std::sync::Arc;

fn state(id: u32) -> BlockState {
    BlockState { id, can_occlude: true, collision_shape_empty: false, collision_shape_full: true }
}

/// A number for every place of every section of every chunk.
fn number(chunk: u32, section: usize, x: usize, y: usize, z: usize) -> u32 {
    1 + chunk * 1_000_000 + section as u32 * 10_000 + (x * 256 + y * 16 + z) as u32
}

fn chunk(tag: u32, counts: &[u16]) -> Arc<Chunk> {
    let mut sections = Vec::new();
    for (s, &block_count) in counts.iter().enumerate() {
        let mut blocks = Box::new([[[BlockState::air(); 16]; 16]; 16]);
        for x in 0..16 {
            for y in 0..16 {
                for z in 0..16 {
                    blocks[x][y][z] = state(number(tag, s, x, y, z));
                }
            }
        }
        sections.push(Section { block_count, blocks });
    }
    Arc::new(Chunk { sections })
}

fn alone(counts: &[u16]) -> LocalChunk {
    LocalChunk {
        center: chunk(0, counts),
        neighbors: [None, None, None, None, None, None, None, None],
    }
}

fn surrounded() -> LocalChunk {
    let n = |tag| Some(chunk(tag, &[1, 1, 1]));
    LocalChunk {
        center: chunk(0, &[1, 1, 1]),
        neighbors: [n(1), n(2), n(3), n(4), n(5), n(6), n(7), n(8)],
    }
}

fn pos(y: i32) -> ChunkSectionPos {
    ChunkSectionPos { x: 3, y, z: -4 }
}

#[test]
fn inside_is_the_section_itself() {
    let local = surrounded().build_local_section(pos(1));
    assert_eq!(local.spos, pos(1));
    for x in 0..16 {
        for y in 0..16 {
            for z in 0..16 {
                assert_eq!(local.blocks[x + 1][y + 1][z + 1].id, number(0, 1, x, y, z));
            }
        }
    }
}

#[test]
fn padding_comes_from_the_neighbours() {
    let local = surrounded().build_local_section(pos(1));
    let tag = |index: usize| index as u32 + 1;
    assert_eq!(local.blocks[5][5][0].id, number(tag(NORTH), 1, 4, 4, 15));
    assert_eq!(local.blocks[5][5][17].id, number(tag(SOUTH), 1, 4, 4, 0));
    assert_eq!(local.blocks[17][5][5].id, number(tag(EAST), 1, 0, 4, 4));
    assert_eq!(local.blocks[0][5][5].id, number(tag(WEST), 1, 15, 4, 4));
    assert_eq!(local.blocks[17][5][0].id, number(tag(NE), 1, 0, 4, 15));
    assert_eq!(local.blocks[0][5][0].id, number(tag(NW), 1, 15, 4, 15));
    assert_eq!(local.blocks[17][5][17].id, number(tag(SE), 1, 0, 4, 0));
    assert_eq!(local.blocks[0][5][17].id, number(tag(SW), 1, 15, 4, 0));
    assert_eq!(local.blocks[5][0][5].id, number(0, 0, 4, 15, 4));
    assert_eq!(local.blocks[5][17][5].id, number(0, 2, 4, 0, 4));
    assert_eq!(local.blocks[0][0][0].id, number(tag(NW), 0, 15, 15, 15));
    assert_eq!(local.blocks[17][17][17].id, number(tag(SE), 2, 0, 0, 0));
}

#[test]
fn nothing_lies_below_or_above_the_chunk() {
    let chunk = surrounded();
    let lowest = chunk.build_local_section(pos(0));
    let highest = chunk.build_local_section(pos(2));
    for x in 0..18 {
        for z in 0..18 {
            assert_eq!(lowest.blocks[x][0][z], BlockState::air());
            assert_eq!(highest.blocks[x][17][z], BlockState::air());
            assert!(!lowest.blocks[x][17][z].is_air());
            assert!(!highest.blocks[x][0][z].is_air());
        }
    }
}

#[test]
fn missing_neighbours_are_air() {
    let local = alone(&[1]).build_local_section(pos(0));
    assert_eq!(local.blocks[0][5][5], BlockState::air());
    assert_eq!(local.blocks[17][5][5], BlockState::air());
    assert_eq!(local.blocks[5][5][0], BlockState::air());
    assert_eq!(local.blocks[17][5][17], BlockState::air());
    assert_eq!(local.blocks[1][1][1].id, number(0, 0, 0, 0, 0));
}

#[test]
fn sections_outside_the_chunk_are_air() {
    let chunk = alone(&[1, 1]);
    for y in [-5, -1, 3, 1000, i32::MIN + 1, i32::MAX - 1] {
        let local = chunk.build_local_section(pos(y));
        let inside_air = local.blocks[5][5][5].is_air();
        assert!(inside_air);
    }
    let below = chunk.build_local_section(pos(-1));
    assert_eq!(below.blocks[5][17][5].id, number(0, 0, 4, 0, 4));
}

#[test]
fn blocks_far_away_are_air() {
    let chunk = surrounded();
    assert_eq!(chunk.get_block_local(1, 32, 0, 0), BlockState::air());
    assert_eq!(chunk.get_block_local(1, -17, 0, 0), BlockState::air());
    assert_eq!(chunk.get_block_local(1, 0, 0, i32::MAX), BlockState::air());
    assert_eq!(chunk.get_block_local(i32::MAX, i32::MIN, i32::MAX, 0), BlockState::air());
    assert_eq!(chunk.get_block_local(1, 31, 0, 0).id, number(3, 1, 15, 0, 0));
    assert_eq!(chunk.get_block_local(1, -16, 0, 0).id, number(4, 1, 0, 0, 0));
}

#[test]
fn sections_agree_where_they_overlap() {
    let chunk = surrounded();
    let lower = chunk.build_local_section(pos(0));
    let upper = chunk.build_local_section(pos(1));
    for x in 0..18 {
        for z in 0..18 {
            assert_eq!(lower.blocks[x][17][z], upper.blocks[x][1][z]);
            assert_eq!(lower.blocks[x][16][z], upper.blocks[x][0][z]);
        }
    }
}

#[test]
fn neighbouring_chunks_agree_on_their_border() {
    let a = chunk(0, &[1]);
    let b = chunk(3, &[1]);
    let here = LocalChunk {
        center: a.clone(),
        neighbors: [None, None, Some(b.clone()), None, None, None, None, None],
    };
    let east = LocalChunk {
        center: b,
        neighbors: [None, None, None, Some(a), None, None, None, None],
    };
    let left = here.build_local_section(pos(0));
    let right = east.build_local_section(pos(0));
    for y in 1..17 {
        for z in 1..17 {
            assert_eq!(left.blocks[17][y][z], right.blocks[1][y][z]);
            assert_eq!(left.blocks[16][y][z], right.blocks[0][y][z]);
        }
    }
}

#[test]
fn only_filled_sections_are_gathered() {
    let chunk = alone(&[0, 7, 0, 4096, 1, 0]);
    let locals = chunk.filled_sections(ChunkPos { x: -2, z: 9 });
    let places: Vec<ChunkSectionPos> = locals.iter().map(|l| l.spos).collect();
    assert_eq!(
        places,
        vec![
            ChunkSectionPos { x: -2, y: 1, z: 9 },
            ChunkSectionPos { x: -2, y: 3, z: 9 },
            ChunkSectionPos { x: -2, y: 4, z: 9 },
        ]
    );
    assert_eq!(locals[1].blocks[1][1][1].id, number(0, 3, 0, 0, 0));
    assert_eq!(locals[1].blocks[1][0][1].id, number(0, 2, 0, 15, 0));
}

#[test]
fn empty_chunks_give_nothing() {
    assert!(alone(&[]).filled_sections(ChunkPos { x: 0, z: 0 }).is_empty());
    assert!(alone(&[0, 0]).filled_sections(ChunkPos { x: 0, z: 0 }).is_empty());
}

#[test]
fn windows_cover_the_padding() {
    assert_eq!(section_window(5), (4, 3));
    assert_eq!(section_window(1), (0, 3));
    assert_eq!(section_window(0), (0, 2));
    assert_eq!(section_window(-1), (0, 1));
    assert_eq!(section_window(-2), (0, 0));
    assert_eq!(section_window(i32::MIN + 1), (0, 0));
    assert_eq!(section_window(i32::MAX - 1), (i32::MAX as usize - 2, 3));
}

#[test]
fn a_window_is_enough() {
    let counts = [1, 1, 1, 1, 1];
    let full = alone(&counts);
    for y in -3..8 {
        let (start, len) = section_window(y);
        let mut part = chunk(0, &counts);
        let sections = &mut Arc::get_mut(&mut part).unwrap().sections;
        *sections = sections.drain(..).skip(start).take(len).collect();
        let part = LocalChunk {
            center: part,
            neighbors: [None, None, None, None, None, None, None, None],
        };
        let whole = full.build_local_section(pos(y));
        let local = part.build_local_section(pos(y - start as i32));
        assert_eq!(whole.blocks, local.blocks);
    }
}
