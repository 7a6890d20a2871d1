//! Laying out the visible faces of a section.

use crate::assets::{Cube, MeshAssets, ModelFace, VariantDesc};
use crate::block::BlockState;
use crate::chunk::{ChunkSectionPos, LocalSection};
use crate::direction::{direction_named, Direction};
use crate::face::{block_face, face_corners, face_dir, face_direction, Face, FACE_COUNT};
use crate::occlusion::{compute_ao, corner_brightness};
use crate::rotation::{
    normalized_degrees, rotate_corner_offset, rotate_direction, turned_corner, turned_direction,
};
use crate::uv::{locked_angle, uvlock_angle};
use crate::vec3::{vec_add, IVec3, Vec3};
use vstd::prelude::*;

verus! {

/// A visible face of a block, ready to be given coordinates.
#[derive(Clone, Copy, Debug, PartialEq, Eq)]
pub struct Quad {
    /// The place of the block in its section.
    pub block: IVec3,
    /// The number of the model.
    pub model: usize,
    /// The number of the element in the model.
    pub element: usize,
    /// The side of the element that shows, before the model is turned.
    pub dir: Direction,
    /// The direction the face points in once the model is turned.
    pub rotated_dir: Direction,
    /// The turn of the model about the X axis, in degrees.
    pub x_rotation: i32,
    /// The turn of the model about the Y axis, in degrees.
    pub y_rotation: i32,
    /// The number of the texture.
    pub tex_idx: u32,
    /// The clockwise turn of the texture in its rectangle, from 0 to 359 degrees.
    pub uv_rotation: i32,
    /// The clockwise turn that keeps the texture in place, from 0 to 359 degrees.
    pub uvlock_rotation: i32,
    /// The brightness of the four corners, in the order of the corners of the face.
    pub ao: [u32; 4],
}

/// The results of `f` from 0 up to `n`, one after the other.
pub open spec fn concat<A>(n: nat, f: spec_fn(int) -> Seq<A>) -> Seq<A>
    decreases n,
{
    if n == 0 {
        Seq::empty()
    } else {
        concat((n - 1) as nat, f) + f(n - 1)
    }
}

/// Whether `p` is the place of a block in a section.
pub open spec fn in_section(p: IVec3) -> bool {
    &&& 0 <= p.x < 16
    &&& 0 <= p.y < 16
    &&& 0 <= p.z < 16
}

/// The place in the padded section of the block at `p` in the section.
pub open spec fn padded(p: IVec3) -> Vec3<int> {
    Vec3 { x: p.x + 1, y: p.y + 1, z: p.z + 1 }
}

/// The block at `p` in the section.
pub open spec fn state_at(section: LocalSection, p: IVec3) -> BlockState {
    section.at(padded(p).x, padded(p).y, padded(p).z)
}

/// The neighbour, in direction `dir`, of the block at `p` in the section.
pub open spec fn neighbour_at(section: LocalSection, p: IVec3, dir: Direction) -> BlockState {
    let n = vec_add(padded(p), dir.unit());
    section.at(n.x, n.y, n.z)
}

/// The side of the turned model that can be pressed against a neighbour which
/// hides the face, if the face names one.
pub open spec fn cull_side<C>(face: ModelFace<C>, desc: VariantDesc) -> Option<Direction> {
    match face.cullface {
        Some(name) => match direction_named(name@) {
            Some(dir) => Some(
                turned_direction(dir, desc.x_rotation as int, desc.y_rotation as int),
            ),
            None => None,
        },
        None => None,
    }
}

/// Whether a neighbour of the block at `p` hides the face.
pub open spec fn is_culled<C>(
    section: LocalSection,
    p: IVec3,
    desc: VariantDesc,
    face: ModelFace<C>,
) -> bool {
    match cull_side(face, desc) {
        Some(side) => neighbour_at(section, p, side).hides_faces(),
        None => false,
    }
}

/// The brightness of corner `i` of the face of the block at `p` on the side `dir`
/// of a model. Models without ambient occlusion are fully bright.
pub open spec fn corner_light(
    section: LocalSection,
    p: IVec3,
    desc: VariantDesc,
    shaded: bool,
    dir: Direction,
    i: int,
) -> int {
    if shaded {
        corner_brightness(
            section,
            padded(p),
            turned_corner(face_corners(dir)[i], desc.x_rotation as int, desc.y_rotation as int),
            turned_direction(dir, desc.x_rotation as int, desc.y_rotation as int),
        )
    } else {
        3
    }
}

/// The face of an element on side `dir`, as it shows at `p`.
pub open spec fn visible_quad<C>(
    section: LocalSection,
    assets: MeshAssets<C>,
    p: IVec3,
    desc: VariantDesc,
    element: int,
    dir: Direction,
    face: ModelFace<C>,
) -> Quad {
    let shaded = assets.models@[desc.model as int].ambient_occlusion;
    Quad {
        block: p,
        model: desc.model,
        element: element as usize,
        dir,
        rotated_dir: turned_direction(dir, desc.x_rotation as int, desc.y_rotation as int),
        x_rotation: desc.x_rotation,
        y_rotation: desc.y_rotation,
        tex_idx: assets.texture_of(assets.models@[desc.model as int], face.texture@),
        uv_rotation: (face.rotation as int % 360) as i32,
        uvlock_rotation: if desc.uvlock {
            locked_angle(dir, desc.y_rotation as int) as i32
        } else {
            0
        },
        ao: [
            corner_light(section, p, desc, shaded, dir, 0) as u32,
            corner_light(section, p, desc, shaded, dir, 1) as u32,
            corner_light(section, p, desc, shaded, dir, 2) as u32,
            corner_light(section, p, desc, shaded, dir, 3) as u32,
        ],
    }
}

/// What the element shows at `p` on side number `face`: nothing if it has no face
/// there or a neighbour hides it.
pub open spec fn face_quads<C>(
    section: LocalSection,
    assets: MeshAssets<C>,
    p: IVec3,
    desc: VariantDesc,
    element: int,
    face: int,
) -> Seq<Quad> {
    let dir = face_dir(face);
    match assets.models@[desc.model as int].elements@[element].face_towards(dir) {
        Some(model_face) => if is_culled(section, p, desc, model_face) {
            Seq::empty()
        } else {
            seq![visible_quad(section, assets, p, desc, element, dir, model_face)]
        },
        None => Seq::empty(),
    }
}

/// What each side of an element shows at `p`.
pub open spec fn by_face<C>(
    section: LocalSection,
    assets: MeshAssets<C>,
    p: IVec3,
    desc: VariantDesc,
    element: int,
) -> spec_fn(int) -> Seq<Quad> {
    |face: int| face_quads(section, assets, p, desc, element, face)
}

/// What each element of a model shows at `p`.
pub open spec fn by_element<C>(
    section: LocalSection,
    assets: MeshAssets<C>,
    p: IVec3,
    desc: VariantDesc,
) -> spec_fn(int) -> Seq<Quad> {
    |element: int| concat(FACE_COUNT as nat, by_face(section, assets, p, desc, element))
}

/// What a model shows at `p`: the faces of its elements, element by element.
pub open spec fn variant_quads<C>(
    section: LocalSection,
    assets: MeshAssets<C>,
    p: IVec3,
    desc: VariantDesc,
) -> Seq<Quad> {
    concat(
        assets.models@[desc.model as int].elements@.len(),
        by_element(section, assets, p, desc),
    )
}

/// What each of the models that the block at `p` consists of shows.
pub open spec fn by_variant<C>(
    section: LocalSection,
    assets: MeshAssets<C>,
    p: IVec3,
) -> spec_fn(int) -> Seq<Quad> {
    |v: int| variant_quads(section, assets, p, assets.descs_of(state_at(section, p))[v])
}

/// What the block at `p` shows. Air shows nothing.
pub open spec fn block_quads<C>(
    section: LocalSection,
    assets: MeshAssets<C>,
    p: IVec3,
) -> Seq<Quad> {
    if state_at(section, p).airy() {
        Seq::empty()
    } else {
        concat(
            assets.descs_of(state_at(section, p)).len(),
            by_variant(section, assets, p),
        )
    }
}

/// What each block of a row along Z shows.
pub open spec fn by_z<C>(
    section: LocalSection,
    assets: MeshAssets<C>,
    y: int,
    x: int,
) -> spec_fn(int) -> Seq<Quad> {
    |z: int| block_quads(section, assets, Vec3 { x: x as i32, y: y as i32, z: z as i32 })
}

/// What each row of a layer shows.
pub open spec fn by_x<C>(section: LocalSection, assets: MeshAssets<C>, y: int) -> spec_fn(
    int,
) -> Seq<Quad> {
    |x: int| concat(16, by_z(section, assets, y, x))
}

/// What each layer of the section shows.
pub open spec fn by_y<C>(section: LocalSection, assets: MeshAssets<C>) -> spec_fn(int) -> Seq<
    Quad,
> {
    |y: int| concat(16, by_x(section, assets, y))
}

/// All visible faces of the section: layer by layer from the lowest, in a layer
/// from west to east, in a row from north to south.
pub open spec fn all_quads<C>(section: LocalSection, assets: MeshAssets<C>) -> Seq<Quad> {
    concat(16, by_y(section, assets))
}

/// Whether a variant can be laid out at `p`: its model is loaded, and where a face
/// with a locked texture shows, the turn of the model can be undone.
pub open spec fn variant_fits<C>(
    section: LocalSection,
    assets: MeshAssets<C>,
    p: IVec3,
    desc: VariantDesc,
) -> bool {
    &&& desc.model < assets.models@.len()
    &&& desc.uvlock && desc.y_rotation == i32::MIN ==> forall|element: int, face: int|
        0 <= element < assets.models@[desc.model as int].elements@.len() && 0 <= face < FACE_COUNT
            ==> (#[trigger] face_quads(section, assets, p, desc, element, face)).len() == 0
}

/// Whether everything that the block at `p` shows can be laid out.
pub open spec fn block_fits<C>(section: LocalSection, assets: MeshAssets<C>, p: IVec3) -> bool {
    !state_at(section, p).airy() ==> forall|v: int|
        0 <= v < assets.descs_of(state_at(section, p)).len() ==> variant_fits(
            section,
            assets,
            p,
            #[trigger] assets.descs_of(state_at(section, p))[v],
        )
}

/// Whether everything that the blocks of the section show can be laid out.
pub open spec fn can_mesh<C>(section: LocalSection, assets: MeshAssets<C>) -> bool {
    forall|p: IVec3| in_section(p) ==> #[trigger] block_fits(section, assets, p)
}

/// Finds whether a neighbour of the block at `p` hides the face.
fn face_is_culled<C>(
    section: &LocalSection,
    p: IVec3,
    desc: &VariantDesc,
    face: &ModelFace<C>,
) -> (culled: bool)
    requires
        in_section(p),
    ensures
        culled == is_culled(*section, p, *desc, *face),
{
    if let Some(name) = &face.cullface {
        if let Some(cull_face) = Direction::from_name(name.as_str()) {
            let cull_dir: Direction = rotate_direction(
                cull_face,
                desc.x_rotation,
                desc.y_rotation,
            );
            let local: IVec3 = Vec3::new(p.x + 1, p.y + 1, p.z + 1);
            let neighbor: IVec3 = local.plus(cull_dir.normal());
            return section.blocks[neighbor.x as usize][neighbor.y as usize][neighbor.z as usize]
                .occludes_face();
        }
    }
    false
}

/// Finds the brightness of corner `i` of a face of the block at `p`.
fn light_at(
    section: &LocalSection,
    p: IVec3,
    desc: &VariantDesc,
    shaded: bool,
    face: &Face,
    i: usize,
) -> (level: u32)
    requires
        in_section(p),
        i < 4,
        face.is_face(face.dir),
    ensures
        level == corner_light(*section, p, *desc, shaded, face.dir, i as int),
{
    if shaded {
        let rotated_dir: Direction = rotate_direction(face.dir, desc.x_rotation, desc.y_rotation);
        let local: IVec3 = Vec3::new(p.x + 1, p.y + 1, p.z + 1);
        let corner: IVec3 = rotate_corner_offset(
            face.offsets[i],
            desc.x_rotation,
            desc.y_rotation,
        );
        compute_ao(local, corner, rotated_dir, section)
    } else {
        3
    }
}

/// Finds whether any face of a model shows at `p`.
fn shows_anything<C>(
    section: &LocalSection,
    assets: &MeshAssets<C>,
    p: IVec3,
    desc: &VariantDesc,
) -> (shows: bool)
    requires
        in_section(p),
        desc.model < assets.models@.len(),
    ensures
        shows == exists|element: int, face: int|
            0 <= element < assets.models@[desc.model as int].elements@.len() && 0 <= face
                < FACE_COUNT && (#[trigger] face_quads(
                *section,
                *assets,
                p,
                *desc,
                element,
                face,
            )).len() != 0,
{
    let count: usize = assets.models[desc.model].elements.len();
    for element in 0usize..count
        invariant
            in_section(p),
            desc.model < assets.models@.len(),
            count == assets.models@[desc.model as int].elements@.len(),
            forall|e: int, f: int|
                0 <= e < element && 0 <= f < FACE_COUNT ==> (#[trigger] face_quads(
                    *section,
                    *assets,
                    p,
                    *desc,
                    e,
                    f,
                )).len() == 0,
    {
        for index in 0usize..FACE_COUNT
            invariant
                in_section(p),
                desc.model < assets.models@.len(),
                count == assets.models@[desc.model as int].elements@.len(),
                element < count,
                forall|e: int, f: int|
                    0 <= e <= element && 0 <= f < FACE_COUNT && (e < element || f < index) ==> (
                    #[trigger] face_quads(*section, *assets, p, *desc, e, f)).len() == 0,
        {
            let cube: &Cube<C> = &assets.models[desc.model].elements[element];
            if let Some(model_face) = cube.face(face_direction(index)) {
                if !face_is_culled(section, p, desc, model_face) {
                    assert(face_quads(
                        *section,
                        *assets,
                        p,
                        *desc,
                        element as int,
                        index as int,
                    ).len() != 0);
                    return true;
                }
            }
        }
    }
    false
}

/// Finds whether everything that the block at `p` shows can be laid out.
fn block_is_meshable<C>(
    section: &LocalSection,
    assets: &MeshAssets<C>,
    p: IVec3,
) -> (meshable: bool)
    requires
        in_section(p),
    ensures
        meshable == block_fits(*section, *assets, p),
{
    let state: BlockState =
        section.blocks[(p.x + 1) as usize][(p.y + 1) as usize][(p.z + 1) as usize];
    if state.is_air() {
        return true;
    }
    let descs: &[VariantDesc] = assets.get_variant_descs(state);
    let count: usize = descs.len();
    for v in 0usize..count
        invariant
            in_section(p),
            state == state_at(*section, p),
            !state.airy(),
            descs@ == assets.descs_of(state),
            count == descs@.len(),
            forall|k: int|
                0 <= k < v ==> variant_fits(
                    *section,
                    *assets,
                    p,
                    #[trigger] assets.descs_of(state_at(*section, p))[k],
                ),
    {
        let desc: VariantDesc = descs[v];
        assert(desc == assets.descs_of(state_at(*section, p))[v as int]);
        if assets.get_block_model(desc.model).is_none() {
            return false;
        }
        if desc.uvlock && desc.y_rotation == i32::MIN && shows_anything(section, assets, p, &desc) {
            return false;
        }
    }
    true
}

/// Finds whether everything that the blocks of a section show can be laid out.
pub fn section_is_meshable<C>(section: &LocalSection, assets: &MeshAssets<C>) -> (meshable: bool)
    ensures
        meshable == can_mesh(*section, *assets),
{
    for y in 0i32..16
        invariant
            forall|p: IVec3|
                in_section(p) && p.y < y ==> #[trigger] block_fits(*section, *assets, p),
    {
        for x in 0i32..16
            invariant
                0 <= y < 16,
                forall|p: IVec3|
                    in_section(p) && (p.y < y || p.y == y && p.x < x) ==> #[trigger] block_fits(
                        *section,
                        *assets,
                        p,
                    ),
        {
            for z in 0i32..16
                invariant
                    0 <= y < 16,
                    0 <= x < 16,
                    forall|p: IVec3|
                        in_section(p) && (p.y < y || p.y == y && (p.x < x || p.x == x && p.z < z))
                            ==> #[trigger] block_fits(*section, *assets, p),
            {
                let p: IVec3 = Vec3::new(x, y, z);
                if !block_is_meshable(section, assets, p) {
                    return false;
                }
            }
        }
    }
    true
}

/// Appends what side number `index` of an element shows at `p`.
fn push_face<C>(
    quads: &mut Vec<Quad>,
    section: &LocalSection,
    assets: &MeshAssets<C>,
    p: IVec3,
    desc: &VariantDesc,
    element: usize,
    index: usize,
)
    requires
        in_section(p),
        variant_fits(*section, *assets, p, *desc),
        element < assets.models@[desc.model as int].elements@.len(),
        index < FACE_COUNT,
    ensures
        final(quads)@ == old(quads)@ + face_quads(
            *section,
            *assets,
            p,
            *desc,
            element as int,
            index as int,
        ),
{
    let face: Face = block_face(face_direction(index));
    let shaded: bool = assets.models[desc.model].ambient_occlusion;
    let cube: &Cube<C> = &assets.models[desc.model].elements[element];
    if let Some(model_face) = cube.face(face.dir) {
        if face_is_culled(section, p, desc, model_face) {
            return;
        }
        let tex_idx: u32 = assets.face_texture(&assets.models[desc.model], &model_face.texture);
        assert(face_quads(*section, *assets, p, *desc, element as int, index as int).len() == 1);
        let uvlock_rotation: i32 = if desc.uvlock {
            uvlock_angle(face.dir, desc.y_rotation)
        } else {
            0
        };
        quads.push(
            Quad {
                block: p,
                model: desc.model,
                element,
                dir: face.dir,
                rotated_dir: rotate_direction(face.dir, desc.x_rotation, desc.y_rotation),
                x_rotation: desc.x_rotation,
                y_rotation: desc.y_rotation,
                tex_idx,
                uv_rotation: normalized_degrees(model_face.rotation),
                uvlock_rotation,
                ao: [
                    light_at(section, p, desc, shaded, &face, 0),
                    light_at(section, p, desc, shaded, &face, 1),
                    light_at(section, p, desc, shaded, &face, 2),
                    light_at(section, p, desc, shaded, &face, 3),
                ],
            },
        );
    }
}

/// Appends what an element shows at `p`.
fn push_element<C>(
    quads: &mut Vec<Quad>,
    section: &LocalSection,
    assets: &MeshAssets<C>,
    p: IVec3,
    desc: &VariantDesc,
    element: usize,
)
    requires
        in_section(p),
        variant_fits(*section, *assets, p, *desc),
        element < assets.models@[desc.model as int].elements@.len(),
    ensures
        final(quads)@ == old(quads)@ + by_element(*section, *assets, p, *desc)(element as int),
{
    for index in 0usize..FACE_COUNT
        invariant
            in_section(p),
            variant_fits(*section, *assets, p, *desc),
            element < assets.models@[desc.model as int].elements@.len(),
            quads@ == old(quads)@ + concat(
                index as nat,
                by_face(*section, *assets, p, *desc, element as int),
            ),
    {
        push_face(quads, section, assets, p, desc, element, index);
    }
}

/// Appends what a model shows at `p`.
fn push_variant<C>(
    quads: &mut Vec<Quad>,
    section: &LocalSection,
    assets: &MeshAssets<C>,
    p: IVec3,
    desc: &VariantDesc,
)
    requires
        in_section(p),
        variant_fits(*section, *assets, p, *desc),
    ensures
        final(quads)@ == old(quads)@ + variant_quads(*section, *assets, p, *desc),
{
    let count: usize = assets.models[desc.model].elements.len();
    for element in 0usize..count
        invariant
            in_section(p),
            variant_fits(*section, *assets, p, *desc),
            count == assets.models@[desc.model as int].elements@.len(),
            quads@ == old(quads)@ + concat(
                element as nat,
                by_element(*section, *assets, p, *desc),
            ),
    {
        push_element(quads, section, assets, p, desc, element);
    }
}

/// Appends what the block at `p` shows.
fn push_block<C>(
    quads: &mut Vec<Quad>,
    section: &LocalSection,
    assets: &MeshAssets<C>,
    p: IVec3,
)
    requires
        in_section(p),
        block_fits(*section, *assets, p),
    ensures
        final(quads)@ == old(quads)@ + block_quads(*section, *assets, p),
{
    let state: BlockState =
        section.blocks[(p.x + 1) as usize][(p.y + 1) as usize][(p.z + 1) as usize];
    if state.is_air() {
        return;
    }
    let descs: &[VariantDesc] = assets.get_variant_descs(state);
    let count: usize = descs.len();
    for v in 0usize..count
        invariant
            in_section(p),
            block_fits(*section, *assets, p),
            state == state_at(*section, p),
            !state.airy(),
            descs@ == assets.descs_of(state),
            count == descs@.len(),
            quads@ == old(quads)@ + concat(v as nat, by_variant(*section, *assets, p)),
    {
        push_variant(quads, section, assets, p, &descs[v]);
    }
}

/// Lays out all visible faces of a section, block by block.
pub fn section_quads<C>(section: &LocalSection, assets: &MeshAssets<C>) -> (quads: Vec<Quad>)
    requires
        can_mesh(*section, *assets),
    ensures
        quads@ == all_quads(*section, *assets),
{
    let mut quads: Vec<Quad> = Vec::new();
    for y in 0i32..16
        invariant
            can_mesh(*section, *assets),
            quads@ == concat(y as nat, by_y(*section, *assets)),
    {
        let ghost below = quads@;
        for x in 0i32..16
            invariant
                0 <= y < 16,
                can_mesh(*section, *assets),
                quads@ == below + concat(x as nat, by_x(*section, *assets, y as int)),
        {
            let ghost before = quads@;
            for z in 0i32..16
                invariant
                    0 <= y < 16,
                    0 <= x < 16,
                    can_mesh(*section, *assets),
                    quads@ == before + concat(z as nat, by_z(*section, *assets, y as int, x as int)),
            {
                push_block(&mut quads, section, assets, Vec3::new(x, y, z));
            }
        }
    }
    quads
}

/// The coordinates of a quad, computed by the caller.
#[derive(Clone, Copy, Debug, PartialEq, Eq)]
pub struct QuadGeometry<P, U> {
    /// The positions of the corners, in the order of the corners of the face.
    pub positions: [P; 4],
    /// The texture coordinates of the corners.
    pub uvs: [U; 4],
    /// Whether the corners run the wrong way around, so that the front of the
    /// quad would point away from the direction of the face.
    pub inverted: bool,
}

/// A vertex of a mesh.
#[derive(Clone, Copy, Debug, PartialEq, Eq)]
pub struct Vertex<P, U> {
    pub position: P,
    /// The brightness, from 0 to 3.
    pub ao: u32,
    /// The number of the texture.
    pub tex_idx: u32,
    pub uv: U,
}

/// The mesh of a section.
#[derive(Debug)]
pub struct MeshData<P, U> {
    pub vertices: Vec<Vertex<P, U>>,
    /// The vertices of the triangles, three for each.
    pub indices: Vec<u32>,
    /// Where the section stands.
    pub section_pos: ChunkSectionPos,
}

/// The largest number of quads whose vertices can all be named by an index.
pub const MAX_QUADS: usize = 0x4000_0000;

/// The vertices of the given quads: four for each, in order.
pub open spec fn vertices_of<P, U>(
    quads: Seq<Quad>,
    geometry: Seq<QuadGeometry<P, U>>,
) -> Seq<Vertex<P, U>> {
    Seq::new(
        4 * quads.len(),
        |k: int|
            Vertex {
                position: geometry[k / 4].positions@[k % 4],
                ao: quads[k / 4].ao@[k % 4],
                tex_idx: quads[k / 4].tex_idx,
                uv: geometry[k / 4].uvs@[k % 4],
            },
    )
}

/// The corner of a quad that comes at place `k` of its two triangles. The corners
/// of an inverted quad are taken in the opposite sense.
pub open spec fn triangle_corner(inverted: bool, k: int) -> int {
    if k == 0 || k == 3 {
        0
    } else if k == 1 {
        if inverted { 2 } else { 1 }
    } else if k == 2 {
        if inverted { 1 } else { 2 }
    } else if k == 4 {
        if inverted { 3 } else { 2 }
    } else {
        if inverted { 2 } else { 3 }
    }
}

/// The triangles of the given quads: two for each, in order.
pub open spec fn indices_of<P, U>(geometry: Seq<QuadGeometry<P, U>>) -> Seq<u32> {
    Seq::new(
        6 * geometry.len(),
        |k: int| (4 * (k / 6) + triangle_corner(geometry[k / 6].inverted, k % 6)) as u32,
    )
}

/// The six indices of the two triangles of a quad whose vertices start at `len`.
pub fn quad_indices(len: u32, inverted: bool) -> (indices: [u32; 6])
    requires
        len <= u32::MAX - 3,
    ensures
        forall|k: int|
            0 <= k < 6 ==> #[trigger] indices@[k] == len + triangle_corner(inverted, k),
        indices@[0] == len && indices@[3] == len,
        !inverted ==> indices@[1] == len + 1 && indices@[2] == len + 2,
        !inverted ==> indices@[4] == len + 2 && indices@[5] == len + 3,
        inverted ==> indices@[1] == len + 2 && indices@[2] == len + 1,
        inverted ==> indices@[4] == len + 3 && indices@[5] == len + 2,
{
    if inverted {
        [len, len + 2, len + 1, len, len + 3, len + 2]
    } else {
        [len, len + 1, len + 2, len, len + 2, len + 3]
    }
}

/// Puts a mesh together from its quads and their coordinates.
pub fn build_mesh<P: Copy, U: Copy>(
    section_pos: ChunkSectionPos,
    quads: &Vec<Quad>,
    geometry: &Vec<QuadGeometry<P, U>>,
) -> (mesh: MeshData<P, U>)
    requires
        quads@.len() == geometry@.len(),
        quads@.len() <= MAX_QUADS,
    ensures
        mesh.vertices@ == vertices_of(quads@, geometry@),
        mesh.indices@ == indices_of(geometry@),
        mesh.section_pos == section_pos,
        mesh.vertices@.len() == 4 * quads@.len(),
        mesh.indices@.len() == 6 * quads@.len(),
        forall|n: int, i: int|
            0 <= n < quads@.len() && 0 <= i < 4 ==> {
                let vertex = mesh.vertices@[4 * n + i];
                &&& vertex.tex_idx == quads@[n].tex_idx
                &&& vertex.ao == (#[trigger] quads@[n].ao@[i])
                &&& vertex.position == geometry@[n].positions@[i]
                &&& vertex.uv == geometry@[n].uvs@[i]
            },
{
    let mut vertices: Vec<Vertex<P, U>> = Vec::new();
    let mut indices: Vec<u32> = Vec::new();
    let count: usize = quads.len();
    for n in 0usize..count
        invariant
            count == quads@.len(),
            count == geometry@.len(),
            count <= MAX_QUADS,
            vertices@ == vertices_of(quads@.take(n as int), geometry@),
            indices@ == indices_of(geometry@.take(n as int)),
    {
        let len: u32 = n as u32 * 4;
        let ghost old_vertices = vertices@;
        let ghost old_indices = indices@;
        let quad: &Quad = &quads[n];
        let shape: &QuadGeometry<P, U> = &geometry[n];
        for i in 0usize..4
            invariant
                n < count,
                count == quads@.len(),
                count == geometry@.len(),
                *quad == quads@[n as int],
                *shape == geometry@[n as int],
                old_vertices == vertices_of(quads@.take(n as int), geometry@),
                vertices@ == old_vertices + vertices_of(quads@, geometry@).subrange(
                    4 * n as int,
                    4 * n + i as int,
                ),
        {
            vertices.push(
                Vertex {
                    position: shape.positions[i],
                    ao: quad.ao[i],
                    tex_idx: quad.tex_idx,
                    uv: shape.uvs[i],
                },
            );
        }
        let corners: [u32; 6] = quad_indices(len, shape.inverted);
        for i in 0usize..6
            invariant
                n < count,
                count == geometry@.len(),
                count <= MAX_QUADS,
                len == 4 * n,
                *shape == geometry@[n as int],
                forall|k: int|
                    0 <= k < 6 ==> #[trigger] corners@[k] == len + triangle_corner(
                        shape.inverted,
                        k,
                    ),
                old_indices == indices_of(geometry@.take(n as int)),
                indices@ == old_indices + indices_of(geometry@).subrange(
                    6 * n as int,
                    6 * n + i as int,
                ),
        {
            indices.push(corners[i]);
        }
        assert(vertices@ =~= vertices_of(quads@.take(n + 1), geometry@));
        assert(indices@ =~= indices_of(geometry@.take(n + 1)));
    }
    assert(quads@.take(count as int) =~= quads@);
    assert(geometry@.take(count as int) =~= geometry@);
    MeshData { vertices, indices, section_pos }
}

/// Whether `shapes` holds what `geometry` gave for each of the quads.
pub open spec fn shaped_by<P, U, F: Fn(&Quad) -> QuadGeometry<P, U>>(
    geometry: F,
    quads: Seq<Quad>,
    shapes: Seq<QuadGeometry<P, U>>,
) -> bool {
    &&& shapes.len() == quads.len()
    &&& forall|i: int|
        0 <= i < quads.len() ==> call_ensures(geometry, (&quads[i],), #[trigger] shapes[i])
}

/// Builds a mesh from its quads. `geometry` computes the coordinates of a quad.
pub fn mesh_quads<P: Copy, U: Copy, F: Fn(&Quad) -> QuadGeometry<P, U>>(
    section_pos: ChunkSectionPos,
    quads: &Vec<Quad>,
    geometry: F,
) -> (mesh: MeshData<P, U>)
    requires
        quads@.len() <= MAX_QUADS,
        forall|i: int|
            0 <= i < quads@.len() ==> call_requires(geometry, (&#[trigger] quads@[i],)),
    ensures
        mesh.section_pos == section_pos,
        exists|shapes: Seq<QuadGeometry<P, U>>|
            {
                &&& #[trigger] shaped_by(geometry, quads@, shapes)
                &&& mesh.vertices@ == vertices_of(quads@, shapes)
                &&& mesh.indices@ == indices_of(shapes)
            },
{
    let mut shapes: Vec<QuadGeometry<P, U>> = Vec::new();
    let count: usize = quads.len();
    for n in 0usize..count
        invariant
            count == quads@.len(),
            shapes@.len() == n,
            forall|i: int|
                0 <= i < quads@.len() ==> call_requires(geometry, (&#[trigger] quads@[i],)),
            forall|i: int|
                0 <= i < n ==> call_ensures(geometry, (&quads@[i],), #[trigger] shapes@[i]),
    {
        shapes.push(geometry(&quads[n]));
    }
    assert(shaped_by(geometry, quads@, shapes@));
    build_mesh(section_pos, quads, &shapes)
}

/// Builds the mesh of a section. `geometry` computes the coordinates of a quad.
pub fn mesh_section<C, P: Copy, U: Copy, F: Fn(&Quad) -> QuadGeometry<P, U>>(
    section: &LocalSection,
    assets: &MeshAssets<C>,
    geometry: F,
) -> (mesh: MeshData<P, U>)
    requires
        can_mesh(*section, *assets),
        all_quads(*section, *assets).len() <= MAX_QUADS,
        forall|i: int|
            0 <= i < all_quads(*section, *assets).len() ==> call_requires(
                geometry,
                (&#[trigger] all_quads(*section, *assets)[i],),
            ),
    ensures
        mesh.section_pos == section.spos,
        exists|shapes: Seq<QuadGeometry<P, U>>|
            {
                &&& #[trigger] shaped_by(geometry, all_quads(*section, *assets), shapes)
                &&& mesh.vertices@ == vertices_of(all_quads(*section, *assets), shapes)
                &&& mesh.indices@ == indices_of(shapes)
            },
{
    let quads: Vec<Quad> = section_quads(section, assets);
    mesh_quads(section.spos, &quads, geometry)
}

} // verus!
