//! Block models, as far as meshing needs them.
//!
//! Coordinates are of a type of the caller's choosing: nothing here computes with
//! them.

use crate::block::BlockState;
use crate::direction::Direction;
use crate::vec3::{Axis, IVec3, Vec3};
use vstd::prelude::*;

verus! {

/// A face of a model element.
#[derive(Debug)]
pub struct ModelFace<C> {
    /// The key of the texture in the texture table of the model.
    pub texture: String,
    /// The name of the side of the block whose neighbour can hide the face.
    pub cullface: Option<String>,
    /// The rectangle of the texture that the face shows, in pixels: left, top,
    /// right, bottom. Without one the face shows the whole texture.
    pub uv: Option<[C; 4]>,
    /// The clockwise turn of the texture, in degrees.
    pub rotation: i32,
}

/// The faces of a model element. A side without a face shows nothing.
#[derive(Debug)]
pub struct CubeFaces<C> {
    pub down: Option<ModelFace<C>>,
    pub up: Option<ModelFace<C>>,
    pub north: Option<ModelFace<C>>,
    pub south: Option<ModelFace<C>>,
    pub west: Option<ModelFace<C>>,
    pub east: Option<ModelFace<C>>,
}

/// A box of a block model, with its low and its high corner in pixels.
#[derive(Debug)]
pub struct Cube<C> {
    pub from: Vec3<C>,
    pub to: Vec3<C>,
    pub faces: CubeFaces<C>,
}

impl<C> Cube<C> {
    /// The face on the given side of the box, before the model is turned.
    pub open spec fn face_towards(self, dir: Direction) -> Option<ModelFace<C>> {
        match dir {
            Direction::Down => self.faces.down,
            Direction::Up => self.faces.up,
            Direction::North => self.faces.north,
            Direction::South => self.faces.south,
            Direction::West => self.faces.west,
            Direction::East => self.faces.east,
        }
    }

    /// Looks up the face on the given side of the box.
    pub fn face(&self, dir: Direction) -> (face: &Option<ModelFace<C>>)
        ensures
            *face == self.face_towards(dir),
            dir is Down ==> *face == self.faces.down,
            dir is Up ==> *face == self.faces.up,
            dir is North ==> *face == self.faces.north,
            dir is South ==> *face == self.faces.south,
            dir is West ==> *face == self.faces.west,
            dir is East ==> *face == self.faces.east,
    {
        match dir {
            Direction::Down => &self.faces.down,
            Direction::Up => &self.faces.up,
            Direction::North => &self.faces.north,
            Direction::South => &self.faces.south,
            Direction::West => &self.faces.west,
            Direction::East => &self.faces.east,
        }
    }
}

/// The model of a block.
#[derive(Debug)]
pub struct BlockModel<C> {
    pub elements: Vec<Cube<C>>,
    /// The name of the texture behind each key that a face can use.
    pub textures: Vec<(String, String)>,
    /// Whether the corners of the model are darkened by the blocks around it.
    pub ambient_occlusion: bool,
}

/// A model that a block state shows, and how it is turned.
#[derive(Clone, Copy, Debug, PartialEq, Eq, Structural)]
pub struct VariantDesc {
    /// The number of the model.
    pub model: usize,
    /// The turn about the X axis, in degrees.
    pub x_rotation: i32,
    /// The turn about the Y axis, in degrees.
    pub y_rotation: i32,
    /// Whether textures stay in place when the model is turned.
    pub uvlock: bool,
}

/// The models of all block states.
#[derive(Debug)]
pub struct MeshAssets<C> {
    /// What each block state shows, by the number of the state.
    pub variants: Vec<Vec<VariantDesc>>,
    /// The loaded models, by number.
    pub models: Vec<BlockModel<C>>,
    /// The number of each loaded texture, by name.
    pub texture_ids: Vec<(String, u32)>,
}

/// What a table holds under `key`: the value of its first entry with that key.
pub open spec fn looked_up<V>(table: Seq<(String, V)>, key: Seq<char>) -> Option<V>
    decreases table.len(),
{
    if table.len() == 0 {
        None
    } else if table.first().0@ == key {
        Some(table.first().1)
    } else {
        looked_up(table.drop_first(), key)
    }
}

/// Looks up the first entry of a table with the given key.
fn look_up<'a, V>(table: &'a Vec<(String, V)>, key: &String) -> (found: Option<&'a V>)
    ensures
        match found {
            Some(v) => looked_up(table@, key@) == Some(*v),
            None => looked_up(table@, key@) is None,
        },
{
    let count: usize = table.len();
    assert(table@.skip(0) =~= table@);
    for i in 0usize..count
        invariant
            count == table@.len(),
            looked_up(table@, key@) == looked_up(table@.skip(i as int), key@),
    {
        assert(table@.skip(i as int).drop_first() =~= table@.skip(i + 1));
        let entry: &(String, V) = &table[i];
        if entry.0.eq(key) {
            return Some(&entry.1);
        }
    }
    None
}

impl<C> BlockModel<C> {
    /// Looks up the name of the texture behind a key.
    pub fn resolve_texture(&self, key: &String) -> (name: Option<&String>)
        ensures
            match name {
                Some(n) => looked_up(self.textures@, key@) == Some(*n),
                None => looked_up(self.textures@, key@) is None,
            },
    {
        look_up(&self.textures, key)
    }
}

impl<C> MeshAssets<C> {
    /// What a block state shows. States beyond the table show nothing.
    pub open spec fn descs_of(self, state: BlockState) -> Seq<VariantDesc> {
        if state.id < self.variants@.len() {
            self.variants@[state.id as int]@
        } else {
            Seq::empty()
        }
    }

    /// Looks up what a block state shows.
    pub fn get_variant_descs(&self, state: BlockState) -> (descs: &[VariantDesc])
        ensures
            descs@ == self.descs_of(state),
            state.id < self.variants@.len() ==> descs@ == self.variants@[state.id as int]@,
            state.id >= self.variants@.len() ==> descs@.len() == 0,
    {
        if (state.id as usize) < self.variants.len() {
            self.variants[state.id as usize].as_slice()
        } else {
            &[]
        }
    }

    /// The number of the texture that a face of `model` shows: that of the texture
    /// behind its key, or 0 where the key has no texture or the texture is not
    /// loaded.
    pub open spec fn texture_of(self, model: BlockModel<C>, key: Seq<char>) -> u32 {
        match looked_up(model.textures@, key) {
            Some(name) => match looked_up(self.texture_ids@, name@) {
                Some(id) => id,
                None => 0,
            },
            None => 0,
        }
    }

    /// Looks up the number of a loaded texture by its name.
    pub fn get_texture_id(&self, name: &String) -> (id: Option<u32>)
        ensures
            id == looked_up(self.texture_ids@, name@),
    {
        match look_up(&self.texture_ids, name) {
            Some(id) => Some(*id),
            None => None,
        }
    }

    /// Finds the number of the texture that a face of `model` shows.
    pub fn face_texture(&self, model: &BlockModel<C>, key: &String) -> (id: u32)
        ensures
            id == self.texture_of(*model, key@),
    {
        match model.resolve_texture(key) {
            Some(name) => match self.get_texture_id(name) {
                Some(id) => id,
                None => 0,
            },
            None => 0,
        }
    }

    /// Looks up a loaded model by its number.
    pub fn get_block_model(&self, model: usize) -> (found: Option<&BlockModel<C>>)
        ensures
            match found {
                Some(m) => model < self.models@.len() && *m == self.models@[model as int],
                None => model >= self.models@.len(),
            },
    {
        if model < self.models.len() {
            Some(&self.models[model])
        } else {
            None
        }
    }
}

/// The corner of a box at the given offsets: an offset of 0 selects the low end
/// of the box on that axis, any other the high end.
pub open spec fn box_corner<C>(offset: Vec3<int>, from: Vec3<C>, to: Vec3<C>) -> Vec3<C> {
    Vec3 {
        x: if offset.x == 0 { from.x } else { to.x },
        y: if offset.y == 0 { from.y } else { to.y },
        z: if offset.z == 0 { from.z } else { to.z },
    }
}

/// Selects the corner of a box at the given offsets.
pub fn offset_to_coord<C: Copy>(offset: IVec3, element: &Cube<C>) -> (coord: Vec3<C>)
    ensures
        coord == box_corner(offset.to_int(), element.from, element.to),
        coord.x == (if offset.x == 0 { element.from.x } else { element.to.x }),
        coord.y == (if offset.y == 0 { element.from.y } else { element.to.y }),
        coord.z == (if offset.z == 0 { element.from.z } else { element.to.z }),
{
    Vec3 {
        x: if offset.x == 0 { element.from.x } else { element.to.x },
        y: if offset.y == 0 { element.from.y } else { element.to.y },
        z: if offset.z == 0 { element.from.z } else { element.to.z },
    }
}

/// A lookup finds the value of the first entry with the key, and finds nothing only
/// where no entry has it.
pub proof fn law_lookups_find_the_first_entry<V>(table: Seq<(String, V)>, key: Seq<char>, i: int)
    requires
        0 <= i < table.len(),
        table[i].0@ == key,
        forall|j: int| 0 <= j < i ==> (#[trigger] table[j]).0@ != key,
    ensures
        looked_up(table, key) == Some(table[i].1),
    decreases i,
{
    if i > 0 {
        assert(table[0].0@ != key);
        let rest = table.drop_first();
        assert(forall|j: int| 0 <= j < i - 1 ==> (#[trigger] rest[j]) == table[j + 1]);
        law_lookups_find_the_first_entry(rest, key, i - 1);
    }
}

/// A lookup finds nothing under a key that no entry has.
pub proof fn law_lookups_find_nothing_else<V>(table: Seq<(String, V)>, key: Seq<char>)
    requires
        forall|j: int| 0 <= j < table.len() ==> (#[trigger] table[j]).0@ != key,
    ensures
        looked_up(table, key) is None,
    decreases table.len(),
{
    if table.len() > 0 {
        assert(table[0].0@ != key);
        let rest = table.drop_first();
        assert(forall|j: int| 0 <= j < rest.len() ==> (#[trigger] rest[j]) == table[j + 1]);
        law_lookups_find_nothing_else(rest, key);
    }
}

/// A face shows the texture whose name stands behind its key; without such a name, or
/// without a loaded texture of that name, it shows texture 0.
pub proof fn law_faces_show_the_texture_behind_their_key<C>(
    assets: MeshAssets<C>,
    model: BlockModel<C>,
    key: Seq<char>,
    name: String,
)
    ensures
        looked_up(model.textures@, key) is None ==> assets.texture_of(model, key) == 0,
        looked_up(model.textures@, key) == Some(name) && looked_up(assets.texture_ids@, name@) is None
            ==> assets.texture_of(model, key) == 0,
        looked_up(model.textures@, key) == Some(name) && looked_up(assets.texture_ids@, name@) is Some
            ==> looked_up(assets.texture_ids@, name@) == Some(assets.texture_of(model, key)),
{
}

/// A corner of a box takes each coordinate from its low end at offset 0 and from its
/// high end at any other offset.
pub proof fn law_corners_take_the_ends_of_the_box<C>(
    offset: Vec3<int>,
    from: Vec3<C>,
    to: Vec3<C>,
    axis: Axis,
)
    ensures
        offset.along(axis) == 0 ==> box_corner(offset, from, to).along(axis) == from.along(axis),
        offset.along(axis) != 0 ==> box_corner(offset, from, to).along(axis) == to.along(axis),
{
}

/// A state shows the variants that stand under its number, and none beyond the table.
pub proof fn law_states_show_their_variants<C>(assets: MeshAssets<C>, state: BlockState)
    ensures
        state.id < assets.variants@.len() ==> assets.descs_of(state)
            == assets.variants@[state.id as int]@,
        state.id >= assets.variants@.len() ==> assets.descs_of(state).len() == 0,
{
}

} // verus!
