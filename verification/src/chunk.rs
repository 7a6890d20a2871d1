//! Chunks, their sections, and sections with one layer of blocks around them.

use crate::block::BlockState;
use std::sync::Arc;
use vstd::prelude::*;

verus! {

/// The neighbour towards negative Z.
pub const NORTH: usize = 0;

/// The neighbour towards positive Z.
pub const SOUTH: usize = 1;

/// The neighbour towards positive X.
pub const EAST: usize = 2;

/// The neighbour towards negative X.
pub const WEST: usize = 3;

/// The neighbour towards positive X and negative Z.
pub const NE: usize = 4;

/// The neighbour towards negative X and negative Z.
pub const NW: usize = 5;

/// The neighbour towards positive X and positive Z.
pub const SE: usize = 6;

/// The neighbour towards negative X and positive Z.
pub const SW: usize = 7;

/// Where a chunk stands, counted in chunks.
#[derive(Clone, Copy, Debug, PartialEq, Eq)]
pub struct ChunkPos {
    pub x: i32,
    pub z: i32,
}

/// Where a section stands, counted in sections.
#[derive(Clone, Copy, Debug, PartialEq, Eq)]
pub struct ChunkSectionPos {
    pub x: i32,
    pub y: i32,
    pub z: i32,
}

/// A cube of 16 by 16 by 16 blocks.
#[derive(Debug)]
pub struct Section {
    /// How many blocks of the section are not air, as the server counts them.
    pub block_count: u16,
    /// The blocks, by X, then Y, then Z.
    pub blocks: Box<[[[BlockState; 16]; 16]; 16]>,
}

impl Section {
    /// The block at the given place in the section.
    pub open spec fn at(self, x: int, y: int, z: int) -> BlockState {
        self.blocks@[x]@[y]@[z]
    }
}

/// A column of sections, lowest first.
#[derive(Debug)]
pub struct Chunk {
    pub sections: Vec<Section>,
}

/// A section with the layer of blocks around it.
#[derive(Debug)]
pub struct LocalSection {
    /// The blocks, by X, then Y, then Z. The section itself starts at index 1.
    pub blocks: Box<[[[BlockState; 18]; 18]; 18]>,
    /// Where the section stands.
    pub spos: ChunkSectionPos,
}

impl LocalSection {
    /// The block at the given place in the padded section.
    pub open spec fn at(self, x: int, y: int, z: int) -> BlockState {
        self.blocks@[x]@[y]@[z]
    }
}

/// A chunk and the chunks around it, as far as they are loaded.
#[derive(Debug)]
pub struct LocalChunk {
    pub center: Arc<Chunk>,
    pub neighbors: [Option<Arc<Chunk>>; 8],
}

impl LocalChunk {
    /// The loaded chunk that lies `cx` chunks to the east and `cz` chunks to the
    /// south of the centre, if there is one.
    pub open spec fn chunk_at(self, cx: int, cz: int) -> Option<Arc<Chunk>> {
        if cx == 0 && cz == 0 {
            Some(self.center)
        } else if cx == 0 && cz == -1 {
            self.neighbors@[NORTH as int]
        } else if cx == 0 && cz == 1 {
            self.neighbors@[SOUTH as int]
        } else if cx == -1 && cz == 0 {
            self.neighbors@[WEST as int]
        } else if cx == 1 && cz == 0 {
            self.neighbors@[EAST as int]
        } else if cx == -1 && cz == -1 {
            self.neighbors@[NW as int]
        } else if cx == 1 && cz == -1 {
            self.neighbors@[NE as int]
        } else if cx == -1 && cz == 1 {
            self.neighbors@[SW as int]
        } else if cx == 1 && cz == 1 {
            self.neighbors@[SE as int]
        } else {
            None
        }
    }

    /// The block at the given place, counted in blocks from the low corner of
    /// section `base_y` of the centre chunk. Where nothing is loaded there is air.
    pub open spec fn block_at(self, base_y: int, lx: int, ly: int, lz: int) -> BlockState {
        match self.chunk_at(lx / 16, lz / 16) {
            Some(chunk) => {
                let index = base_y + ly / 16;
                if 0 <= index < chunk.sections@.len() {
                    chunk.sections@[index].at(lx % 16, ly % 16, lz % 16)
                } else {
                    BlockState::air_state()
                }
            },
            None => BlockState::air_state(),
        }
    }

    /// Whether `local` holds section `spos` of this chunk and the layer of blocks
    /// around it.
    pub open spec fn is_local_section(self, spos: ChunkSectionPos, local: LocalSection) -> bool {
        &&& local.spos == spos
        &&& forall|x: int, y: int, z: int|
            0 <= x < 18 && 0 <= y < 18 && 0 <= z < 18 ==> #[trigger] local.at(x, y, z)
                == self.block_at(spos.y as int, x - 1, y - 1, z - 1)
    }

    /// Looks up the block at the given place, counted in blocks from the low
    /// corner of section `base_y` of the centre chunk.
    pub fn get_block_local(&self, base_y: i32, lx: i32, ly: i32, lz: i32) -> (state: BlockState)
        requires
            self.chunk_at(lx as int / 16, lz as int / 16) is Some ==> i32::MIN <= base_y + ly as int
                / 16 <= i32::MAX,
        ensures
            state == self.block_at(base_y as int, lx as int, ly as int, lz as int),
    {
        let (cx_off, sx): (i32, usize) = split_coordinate(lx);
        let (cy_off, sy): (i32, usize) = split_coordinate(ly);
        let (cz_off, sz): (i32, usize) = split_coordinate(lz);

        let chunk_opt: Option<&Arc<Chunk>> = match (cx_off, cz_off) {
            (0, 0) => Some(&self.center),
            (0, -1) => self.neighbors[NORTH].as_ref(),
            (0, 1) => self.neighbors[SOUTH].as_ref(),
            (-1, 0) => self.neighbors[WEST].as_ref(),
            (1, 0) => self.neighbors[EAST].as_ref(),
            (-1, -1) => self.neighbors[NW].as_ref(),
            (1, -1) => self.neighbors[NE].as_ref(),
            (-1, 1) => self.neighbors[SW].as_ref(),
            (1, 1) => self.neighbors[SE].as_ref(),
            _ => None,
        };

        if let Some(chunk) = chunk_opt {
            let section_index: i32 = base_y + cy_off;
            if section_index >= 0 && (section_index as usize) < chunk.sections.len() {
                return chunk.sections[section_index as usize].blocks[sx][sy][sz];
            }
        }

        BlockState::air()
    }

    /// Gathers section `spos.y` of the centre chunk and the layer of blocks around
    /// it.
    pub fn build_local_section(&self, spos: ChunkSectionPos) -> (local: LocalSection)
        requires
            i32::MIN < spos.y < i32::MAX,
        ensures
            self.is_local_section(spos, local),
    {
        let air: BlockState = BlockState::air();
        let mut blocks: Box<[[[BlockState; 18]; 18]; 18]> = Box::new([[[air; 18]; 18]; 18]);

        for ix in 0usize..18
            invariant
                i32::MIN < spos.y < i32::MAX,
                forall|x: int, y: int, z: int|
                    #![trigger blocks@[x]@[y]@[z]]
                    0 <= x < ix && 0 <= y < 18 && 0 <= z < 18 ==> blocks@[x]@[y]@[z]
                        == self.block_at(spos.y as int, x - 1, y - 1, z - 1),
        {
            for iy in 0usize..18
                invariant
                    ix < 18,
                    i32::MIN < spos.y < i32::MAX,
                    forall|x: int, y: int, z: int|
                        #![trigger blocks@[x]@[y]@[z]]
                        0 <= x < 18 && 0 <= y < 18 && 0 <= z < 18 && (x < ix || x == ix && y < iy)
                            ==> blocks@[x]@[y]@[z] == self.block_at(
                            spos.y as int,
                            x - 1,
                            y - 1,
                            z - 1,
                        ),
            {
                for iz in 0usize..18
                    invariant
                        ix < 18,
                        iy < 18,
                        i32::MIN < spos.y < i32::MAX,
                        forall|x: int, y: int, z: int|
                            #![trigger blocks@[x]@[y]@[z]]
                            0 <= x < 18 && 0 <= y < 18 && 0 <= z < 18 && (x < ix || x == ix && (y
                                < iy || y == iy && z < iz)) ==> blocks@[x]@[y]@[z]
                                == self.block_at(spos.y as int, x - 1, y - 1, z - 1),
                {
                    let lx: i32 = ix as i32 - 1;
                    let ly: i32 = iy as i32 - 1;
                    let lz: i32 = iz as i32 - 1;
                    blocks[ix][iy][iz] = self.get_block_local(spos.y, lx, ly, lz);
                }
            }
        }

        LocalSection { blocks, spos }
    }

    /// The numbers of the sections among the lowest `n` that hold any block,
    /// lowest first.
    pub open spec fn filled(self, n: nat) -> Seq<int>
        decreases n,
    {
        if n == 0 {
            Seq::empty()
        } else {
            let below = self.filled((n - 1) as nat);
            if self.center.sections@[n - 1].block_count != 0 {
                below.push(n - 1)
            } else {
                below
            }
        }
    }

    /// Gathers, lowest first, every section of the centre chunk that holds any
    /// block. The chunk stands at `chunk_pos`.
    pub fn filled_sections(&self, chunk_pos: ChunkPos) -> (locals: Vec<LocalSection>)
        requires
            forall|i: int|
                0 <= i < self.center.sections@.len() && (
                #[trigger] self.center.sections@[i]).block_count != 0 ==> i < i32::MAX,
        ensures
            locals@.len() == self.filled(self.center.sections@.len()).len(),
            forall|k: int|
                0 <= k < locals@.len() ==> {
                    let local = #[trigger] locals@[k];
                    &&& local.spos.x == chunk_pos.x
                    &&& local.spos.y == self.filled(self.center.sections@.len())[k]
                    &&& local.spos.z == chunk_pos.z
                    &&& self.is_local_section(local.spos, local)
                },
    {
        let mut locals: Vec<LocalSection> = Vec::new();
        let count: usize = self.center.sections.len();
        for i in 0usize..count
            invariant
                count == self.center.sections@.len(),
                forall|k: int|
                    0 <= k < count && (#[trigger] self.center.sections@[k]).block_count != 0 ==> k
                        < i32::MAX,
                locals@.len() == self.filled(i as nat).len(),
                forall|k: int|
                    0 <= k < locals@.len() ==> {
                        let local = #[trigger] locals@[k];
                        &&& local.spos.x == chunk_pos.x
                        &&& local.spos.y == self.filled(i as nat)[k]
                        &&& local.spos.z == chunk_pos.z
                        &&& self.is_local_section(local.spos, local)
                    },
        {
            if self.center.sections[i].block_count != 0 {
                let spos: ChunkSectionPos = ChunkSectionPos {
                    x: chunk_pos.x,
                    y: i as i32,
                    z: chunk_pos.z,
                };
                locals.push(self.build_local_section(spos));
            }
        }
        locals
    }
}

/// The lowest section whose blocks section `y` and its padding can hold.
pub open spec fn window_start(y: int) -> int {
    if y > 0 {
        y - 1
    } else {
        0
    }
}

/// How many sections, from the lowest, section `y` and its padding can hold blocks
/// of.
pub open spec fn window_len(y: int) -> int {
    if y + 2 > window_start(y) {
        y + 2 - window_start(y)
    } else {
        0
    }
}

/// Finds the sections of a chunk that section `y` and its padding can hold blocks
/// of: the number of the lowest, and how many there are.
pub fn section_window(y: i32) -> (window: (usize, usize))
    requires
        i32::MIN < y < i32::MAX,
    ensures
        window.0 == window_start(y as int),
        window.1 == window_len(y as int),
        window.1 <= 3,
{
    if y > 0 {
        ((y - 1) as usize, 3)
    } else if y > -2 {
        (0, (y + 2) as usize)
    } else {
        (0, 0)
    }
}

impl Chunk {
    /// Whether this chunk holds the sections of `full` from number `start`, at most
    /// `len` of them.
    pub open spec fn is_window_of(self, full: Chunk, start: int, len: int) -> bool {
        &&& self.sections@.len() == if full.sections@.len() <= start {
            0
        } else if full.sections@.len() - start < len {
            full.sections@.len() - start
        } else {
            len
        }
        &&& forall|i: int|
            0 <= i < self.sections@.len() ==> (#[trigger] self.sections@[i]).blocks
                == full.sections@[start + i].blocks
    }
}

impl LocalChunk {
    /// Whether this holds the same chunks as `full`, each with its sections from
    /// number `start` only, at most `len` of them.
    pub open spec fn is_window_of(self, full: LocalChunk, start: int, len: int) -> bool {
        forall|cx: int, cz: int|
            match (#[trigger] self.chunk_at(cx, cz), full.chunk_at(cx, cz)) {
                (Some(part), Some(whole)) => part.is_window_of(*whole, start, len),
                (None, None) => true,
                _ => false,
            }
    }
}

/// Splits a block coordinate into the section it falls in and the place in that
/// section.
fn split_coordinate(l: i32) -> (r: (i32, usize))
    ensures
        r.0 == l as int / 16,
        r.1 == l as int % 16,
        r.1 < 16,
{
    match (l.checked_div_euclid(16), l.checked_rem_euclid(16)) {
        (Some(section), Some(place)) => (section, place as usize),
        _ => (0, 0),
    }
}

/// The block 16 places up is the same block of the next section: a section and
/// the one above it agree where their padding overlaps.
pub proof fn law_sections_agree_vertically(
    chunk: LocalChunk,
    base_y: int,
    lx: int,
    ly: int,
    lz: int,
)
    ensures
        chunk.block_at(base_y, lx, ly + 16, lz) == chunk.block_at(base_y + 1, lx, ly, lz),
{
}

/// Which of the chunks around the centre lies `dx` to the east and `dz` to the south:
/// they are kept in the order north, south, east, west, then north-east, north-west,
/// south-east, south-west.
pub open spec fn is_compass_point(index: usize, dx: int, dz: int) -> bool {
    ||| index == 0 && dx == 0 && dz == -1
    ||| index == 1 && dx == 0 && dz == 1
    ||| index == 2 && dx == 1 && dz == 0
    ||| index == 3 && dx == -1 && dz == 0
    ||| index == 4 && dx == 1 && dz == -1
    ||| index == 5 && dx == -1 && dz == -1
    ||| index == 6 && dx == 1 && dz == 1
    ||| index == 7 && dx == -1 && dz == 1
}

/// The block at `i`, `j`, `k` of the section that lies `dx` chunks east, `dz` chunks
/// south and `dy` sections up is found in the chunk that lies there: in the centre, or
/// in the neighbour in that direction. Where that chunk has no such section, or is not
/// loaded, there is air.
pub proof fn law_blocks_are_found_where_they_lie(
    chunk: LocalChunk,
    base_y: int,
    dx: int,
    dy: int,
    dz: int,
    i: int,
    j: int,
    k: int,
    index: usize,
)
    requires
        0 <= i < 16,
        0 <= j < 16,
        0 <= k < 16,
    ensures
        ({
            let found = chunk.block_at(base_y, 16 * dx + i, 16 * dy + j, 16 * dz + k);
            &&& dx == 0 && dz == 0 ==> if 0 <= base_y + dy < chunk.center.sections@.len() {
                found == chunk.center.sections@[base_y + dy].blocks@[i]@[j]@[k]
            } else {
                found.id == 0
            }
            &&& is_compass_point(index, dx, dz) ==> match chunk.neighbors@[index as int] {
                Some(there) => if 0 <= base_y + dy < there.sections@.len() {
                    found == there.sections@[base_y + dy].blocks@[i]@[j]@[k]
                } else {
                    found.id == 0
                },
                None => found.id == 0,
            }
            &&& dx < -1 || dx > 1 || dz < -1 || dz > 1 ==> found.id == 0
        }),
{
    assert((16 * dx + i) / 16 == dx && (16 * dx + i) % 16 == i);
    assert((16 * dy + j) / 16 == dy && (16 * dy + j) % 16 == j);
    assert((16 * dz + k) / 16 == dz && (16 * dz + k) % 16 == k);
}

/// A padded section stands where it was asked for, and holds at every place, in the
/// section and around it, the block one step further down, north and west.
pub proof fn law_padding_starts_one_block_early(
    chunk: LocalChunk,
    spos: ChunkSectionPos,
    local: LocalSection,
    x: int,
    y: int,
    z: int,
)
    requires
        chunk.is_local_section(spos, local),
        0 <= x < 18,
        0 <= y < 18,
        0 <= z < 18,
    ensures
        local.spos == spos,
        local.blocks@[x]@[y]@[z] == chunk.block_at(spos.y as int, x - 1, y - 1, z - 1),
{
    assert(local.at(x, y, z) == local.blocks@[x]@[y]@[z]);
}

/// The sections in the window of section `y` are all that gathering it needs: from
/// them alone come the same blocks, once sections are counted from the start of the
/// window.
pub proof fn law_window_is_enough(
    part: LocalChunk,
    full: LocalChunk,
    y: int,
    lx: int,
    ly: int,
    lz: int,
)
    requires
        part.is_window_of(full, window_start(y), window_len(y)),
        -16 <= ly < 32,
    ensures
        part.block_at(y - window_start(y), lx, ly, lz) == full.block_at(y, lx, ly, lz),
{
    let start = window_start(y);
    let index = y - start + ly / 16;
    if let (Some(p), Some(f)) = (part.chunk_at(lx / 16, lz / 16), full.chunk_at(lx / 16, lz / 16)) {
        assert(p.is_window_of(*f, start, window_len(y)));
        assert(0 <= index < p.sections@.len() <==> 0 <= start + index < f.sections@.len());
        if 0 <= index < p.sections@.len() {
            assert(p.sections@[index].blocks == f.sections@[start + index].blocks);
        }
    }
}

/// Inside the section a padded section holds the blocks of the section itself.
pub proof fn law_inside_is_the_section(
    chunk: LocalChunk,
    spos: ChunkSectionPos,
    local: LocalSection,
    x: int,
    y: int,
    z: int,
)
    requires
        chunk.is_local_section(spos, local),
        0 <= spos.y < chunk.center.sections@.len(),
        0 <= x < 16,
        0 <= y < 16,
        0 <= z < 16,
    ensures
        local.at(x + 1, y + 1, z + 1) == chunk.center.sections@[spos.y as int].at(x, y, z),
{
}

/// Two chunks that see each other as neighbours agree on the blocks along the
/// border between them, whichever of the two is the centre.
pub proof fn law_neighbours_agree(
    here: LocalChunk,
    east: LocalChunk,
    south: LocalChunk,
    base_y: int,
    l: int,
    ly: int,
    along: int,
)
    requires
        here.neighbors@[EAST as int] == Some(east.center),
        east.neighbors@[WEST as int] == Some(here.center),
        here.neighbors@[SOUTH as int] == Some(south.center),
        south.neighbors@[NORTH as int] == Some(here.center),
        -16 <= l < 16,
        0 <= along < 16,
    ensures
        here.block_at(base_y, l + 16, ly, along) == east.block_at(base_y, l, ly, along),
        here.block_at(base_y, along, ly, l + 16) == south.block_at(base_y, along, ly, l),
{
}

/// Where a neighbour is not loaded the padding is air.
pub proof fn law_missing_chunks_are_air(
    chunk: LocalChunk,
    base_y: int,
    lx: int,
    ly: int,
    lz: int,
)
    requires
        chunk.chunk_at(lx / 16, lz / 16) is None,
    ensures
        chunk.block_at(base_y, lx, ly, lz) == BlockState::air_state(),
{
}

/// The sections that are gathered are those that hold any block, each once and in
/// ascending order.
pub proof fn law_filled_sections_ascend(chunk: LocalChunk, n: nat)
    ensures
        forall|i: int, j: int|
            0 <= i < j < chunk.filled(n).len() ==> chunk.filled(n)[i] < chunk.filled(n)[j],
        forall|i: int|
            #[trigger] chunk.filled(n).contains(i) <==> (0 <= i < n
                && chunk.center.sections@[i].block_count != 0),
    decreases n,
{
    if n > 0 {
        let below = chunk.filled((n - 1) as nat);
        law_filled_sections_ascend(chunk, (n - 1) as nat);
        assert(forall|k: int| 0 <= k < below.len() ==> below.contains(#[trigger] below[k]));
        assert forall|i: int|
            #[trigger] chunk.filled(n).contains(i) <==> (0 <= i < n
                && chunk.center.sections@[i].block_count != 0) by {
            if 0 <= i < n && chunk.center.sections@[i].block_count != 0 {
                if i == n - 1 {
                    assert(chunk.filled(n)[below.len() as int] == i);
                } else {
                    assert(below.contains(i));
                    let k = choose|k: int| 0 <= k < below.len() && below[k] == i;
                    assert(chunk.filled(n)[k] == i);
                }
            }
            if chunk.filled(n).contains(i) {
                let k = choose|k: int|
                    0 <= k < chunk.filled(n).len() && chunk.filled(n)[k] == i;
                if k < below.len() {
                    assert(below.contains(below[k]));
                }
            }
        }
    }
}

} // verus!
