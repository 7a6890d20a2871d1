//! What a mesh has to show, said of the blocks and the models themselves.

use crate::assets::{looked_up, BlockModel, Cube, MeshAssets, ModelFace, VariantDesc};
use crate::block::{law_what_hides_faces, BlockState};
use crate::chunk::LocalSection;
use crate::direction::{lemma_names_are_distinct, Direction};
use crate::face::{face_corners, face_dir, FACE_COUNT};
use crate::mesh::{
    all_quads, block_fits, block_quads, by_element, by_face, by_variant, by_x, by_y, by_z, can_mesh,
    concat, corner_light, face_quads, in_section, is_culled, neighbour_at, padded,
    state_at, variant_fits, variant_quads, visible_quad, Quad,
};
use crate::occlusion::{is_light_at, law_blocks_take_the_light, stops_light};
use crate::rotation::{
    law_corners_turn_about_the_centre, law_directions_turn_like_positions, turned_corner,
    turned_direction, turned_int,
};
use crate::uv::law_locked_angle_undoes_the_turn;
use crate::vec3::{Axis, IVec3, Vec3};
use vstd::prelude::*;

verus! {

/// A place where a face could show: a side of an element of one of the models of a
/// block of the section.
pub struct Place {
    pub y: int,
    pub x: int,
    pub z: int,
    pub variant: int,
    pub element: int,
    pub face: int,
}

/// Whether one place comes before another: lower blocks first, then those further
/// west, then those further north; in a block by model, element and side.
pub open spec fn before(a: Place, b: Place) -> bool {
    ||| a.y < b.y
    ||| a.y == b.y && a.x < b.x
    ||| a.y == b.y && a.x == b.x && a.z < b.z
    ||| a.y == b.y && a.x == b.x && a.z == b.z && a.variant < b.variant
    ||| a.y == b.y && a.x == b.x && a.z == b.z && a.variant == b.variant && a.element < b.element
    ||| a.y == b.y && a.x == b.x && a.z == b.z && a.variant == b.variant && a.element == b.element
        && a.face < b.face
}

/// The block a place belongs to. The padding takes up index 0 on every axis.
pub open spec fn block_of(section: LocalSection, k: Place) -> BlockState {
    section.blocks@[k.x + 1]@[k.y + 1]@[k.z + 1]
}

/// How the model of a place is turned.
pub open spec fn desc_of<C>(section: LocalSection, assets: MeshAssets<C>, k: Place) -> VariantDesc {
    assets.variants@[block_of(section, k).id as int]@[k.variant]
}

/// The model of a place.
pub open spec fn model_of<C>(
    section: LocalSection,
    assets: MeshAssets<C>,
    k: Place,
) -> BlockModel<C> {
    assets.models@[desc_of(section, assets, k).model as int]
}

/// The side of the element at a place, before its model is turned.
pub open spec fn side_of(k: Place) -> Direction {
    if k.face == 0 {
        Direction::Up
    } else if k.face == 1 {
        Direction::Down
    } else if k.face == 2 {
        Direction::South
    } else if k.face == 3 {
        Direction::North
    } else if k.face == 4 {
        Direction::East
    } else {
        Direction::West
    }
}

/// The face that an element has on a side.
pub open spec fn face_on<C>(element: Cube<C>, side: Direction) -> Option<ModelFace<C>> {
    if side is Up {
        element.faces.up
    } else if side is Down {
        element.faces.down
    } else if side is South {
        element.faces.south
    } else if side is North {
        element.faces.north
    } else if side is East {
        element.faces.east
    } else {
        element.faces.west
    }
}

/// The face at a place, if the element has one there.
pub open spec fn face_of<C>(
    section: LocalSection,
    assets: MeshAssets<C>,
    k: Place,
) -> Option<ModelFace<C>> {
    face_on(model_of(section, assets, k).elements@[k.element], side_of(k))
}

/// Whether `name` is the name of the side that lies one step `step` away.
pub open spec fn names_step(name: Seq<char>, step: Vec3<int>) -> bool {
    ||| name == "down"@ && step == (Vec3 { x: 0int, y: -1int, z: 0int })
    ||| name == "up"@ && step == (Vec3 { x: 0int, y: 1int, z: 0int })
    ||| name == "north"@ && step == (Vec3 { x: 0int, y: 0int, z: -1int })
    ||| name == "south"@ && step == (Vec3 { x: 0int, y: 0int, z: 1int })
    ||| name == "west"@ && step == (Vec3 { x: -1int, y: 0int, z: 0int })
    ||| name == "east"@ && step == (Vec3 { x: 1int, y: 0int, z: 0int })
}

/// Whether a face is hidden: it names a side, and the block next to its own on that
/// side, once the model is turned, can occlude, is not air and collides with something.
pub open spec fn is_hidden<C>(
    section: LocalSection,
    k: Place,
    desc: VariantDesc,
    face: ModelFace<C>,
) -> bool {
    face.cullface matches Some(name) && exists|step: Vec3<int>|
        #[trigger] names_step(name@, step) && {
            let s = turned_int(step, desc.x_rotation as int, desc.y_rotation as int);
            let next = section.blocks@[k.x + 1 + s.x]@[k.y + 1 + s.y]@[k.z + 1 + s.z];
            next.can_occlude && next.id != 0 && !next.collision_shape_empty
        }
}

/// Whether a face shows at a place: the block is not air, it has such a model, the
/// model such an element, the element such a face, and the face is not hidden.
pub open spec fn shows<C>(section: LocalSection, assets: MeshAssets<C>, k: Place) -> bool {
    &&& 0 <= k.x < 16 && 0 <= k.y < 16 && 0 <= k.z < 16
    &&& block_of(section, k).id != 0
    &&& block_of(section, k).id < assets.variants@.len()
    &&& 0 <= k.variant < assets.variants@[block_of(section, k).id as int]@.len()
    &&& 0 <= k.element < model_of(section, assets, k).elements@.len()
    &&& 0 <= k.face < 6
    &&& face_of(section, assets, k) matches Some(face) && !is_hidden(
        section,
        k,
        desc_of(section, assets, k),
        face,
    )
}

/// Whether `id` is the number of the texture behind `key`: that of the loaded texture
/// with the name that the model has for the key, and 0 where there is none.
pub open spec fn is_texture<C>(
    assets: MeshAssets<C>,
    model: BlockModel<C>,
    key: Seq<char>,
    id: u32,
) -> bool {
    match looked_up(model.textures@, key) {
        Some(name) => match looked_up(assets.texture_ids@, name@) {
            Some(found) => id == found,
            None => id == 0,
        },
        None => id == 0,
    }
}

/// Whether the four levels are the light at the corners of a face: full light on a
/// model that is not shaded; else what the blocks around each turned corner leave, on
/// the side that the turned face points to.
pub open spec fn is_lit<C>(
    section: LocalSection,
    assets: MeshAssets<C>,
    k: Place,
    q: Quad,
) -> bool {
    let desc = desc_of(section, assets, k);
    forall|i: int, axis: Axis|
        0 <= i < 4 && #[trigger] q.rotated_dir.unit().along(axis) != 0 ==> if model_of(
            section,
            assets,
            k,
        ).ambient_occlusion {
            let c = face_corners(side_of(k))[i];
            is_light_at(
                section,
                Vec3 { x: k.x + 1, y: k.y + 1, z: k.z + 1 },
                turned_int(
                    Vec3 { x: 2 * c.x - 1, y: 2 * c.y - 1, z: 2 * c.z - 1 },
                    desc.x_rotation as int,
                    desc.y_rotation as int,
                ),
                axis,
                (#[trigger] q.ao@[i]) as int,
            )
        } else {
            q.ao@[i] == 3
        }
}

/// Whether a texture turned by `angle` keeps its place on a side of a model that is
/// turned by `y_rotation`: the two undo each other, with or, on sides that are seen
/// mirrored, against one another.
pub open spec fn keeps_texture_in_place(side: Direction, y_rotation: i32, angle: i32) -> bool {
    &&& 0 <= angle < 360
    &&& side is Up || side is North || side is East ==> (angle + y_rotation) % 360 == 0
    &&& side is Down || side is South || side is West ==> (angle - y_rotation) % 360 == 0
}

/// Whether `q` is how the face at a place shows.
pub open spec fn is_shown_as<C>(
    section: LocalSection,
    assets: MeshAssets<C>,
    k: Place,
    q: Quad,
) -> bool {
    let desc = desc_of(section, assets, k);
    &&& q.block.x == k.x && q.block.y == k.y && q.block.z == k.z
    &&& q.model == desc.model
    &&& q.element == k.element
    &&& q.dir == side_of(k)
    &&& q.x_rotation == desc.x_rotation
    &&& q.y_rotation == desc.y_rotation
    &&& q.rotated_dir.unit() == turned_int(
        side_of(k).unit(),
        desc.x_rotation as int,
        desc.y_rotation as int,
    )
    &&& face_of(section, assets, k) matches Some(face) && {
        &&& is_texture(assets, model_of(section, assets, k), face.texture@, q.tex_idx)
        &&& 0 <= q.uv_rotation < 360
        &&& (face.rotation - q.uv_rotation) % 360 == 0
    }
    &&& desc.uvlock ==> keeps_texture_in_place(q.dir, q.y_rotation, q.uvlock_rotation)
    &&& !desc.uvlock ==> q.uvlock_rotation == 0
    &&& is_lit(section, assets, k, q)
}

/// Whether every place comes before all later ones.
pub open spec fn ascending(places: Seq<Place>) -> bool {
    forall|i: int, j: int|
        0 <= i < j < places.len() ==> before(#[trigger] places[i], #[trigger] places[j])
}

/// Whether `places` are the places of `quads`, one by one and in order, and exactly
/// those that `member` holds of.
pub open spec fn lists<C>(
    section: LocalSection,
    assets: MeshAssets<C>,
    quads: Seq<Quad>,
    places: Seq<Place>,
    member: spec_fn(Place) -> bool,
) -> bool {
    &&& places.len() == quads.len()
    &&& ascending(places)
    &&& forall|k: Place| #[trigger] places.contains(k) <==> member(k)
    &&& forall|i: int|
        0 <= i < quads.len() ==> is_shown_as(section, assets, #[trigger] places[i], quads[i])
}

/// The block of a place, as its section counts blocks.
spec fn spot(k: Place) -> IVec3 {
    Vec3 { x: k.x as i32, y: k.y as i32, z: k.z as i32 }
}

proof fn lemma_names_step(name: Seq<char>, dir: Direction)
    ensures
        names_step(name, dir.unit()) <==> name == dir.name(),
{
    lemma_names_are_distinct();
    assert(Direction::Down.name() == "down"@ && Direction::Up.name() == "up"@);
    assert(Direction::North.name() == "north"@ && Direction::South.name() == "south"@);
    assert(Direction::West.name() == "west"@ && Direction::East.name() == "east"@);
}

proof fn lemma_hidden<C>(
    section: LocalSection,
    k: Place,
    desc: VariantDesc,
    face: ModelFace<C>,
)
    requires
        0 <= k.x < 16,
        0 <= k.y < 16,
        0 <= k.z < 16,
    ensures
        is_hidden(section, k, desc, face) == is_culled(section, spot(k), desc, face),
{
    let (x_rot, y_rot) = (desc.x_rotation as int, desc.y_rotation as int);
    lemma_names_are_distinct();
    if is_culled(section, spot(k), desc, face) {
        let name = face.cullface->0;
        let dir = choose|d: Direction| #[trigger] d.name() == name@;
        law_directions_turn_like_positions(dir, x_rot, y_rot);
        lemma_names_step(name@, dir);
        assert(names_step(name@, dir.unit()));
        law_what_hides_faces(neighbour_at(section, spot(k), turned_direction(dir, x_rot, y_rot)));
    }
    if is_hidden(section, k, desc, face) {
        let name = face.cullface->0;
        let step = choose|step: Vec3<int>|
            #[trigger] names_step(name@, step) && {
                let s = turned_int(step, x_rot, y_rot);
                let next = section.blocks@[k.x + 1 + s.x]@[k.y + 1 + s.y]@[k.z + 1 + s.z];
                next.can_occlude && next.id != 0 && !next.collision_shape_empty
            };
        let dir = if step == Direction::Down.unit() {
            Direction::Down
        } else if step == Direction::Up.unit() {
            Direction::Up
        } else if step == Direction::North.unit() {
            Direction::North
        } else if step == Direction::South.unit() {
            Direction::South
        } else if step == Direction::West.unit() {
            Direction::West
        } else {
            Direction::East
        };
        assert(dir.unit() == step);
        lemma_names_step(name@, dir);
        assert(dir.name() == name@);
        law_directions_turn_like_positions(dir, x_rot, y_rot);
    }
}

proof fn lemma_lit<C>(section: LocalSection, assets: MeshAssets<C>, k: Place, q: Quad)
    requires
        0 <= k.x < 16,
        0 <= k.y < 16,
        0 <= k.z < 16,
        0 <= k.face < 6,
        ({
            let desc = desc_of(section, assets, k);
            let shaded = model_of(section, assets, k).ambient_occlusion;
            &&& q.rotated_dir == turned_direction(
                side_of(k),
                desc.x_rotation as int,
                desc.y_rotation as int,
            )
            &&& forall|i: int|
                0 <= i < 4 ==> #[trigger] q.ao@[i] == corner_light(
                    section,
                    spot(k),
                    desc,
                    shaded,
                    side_of(k),
                    i,
                ) as u32
        }),
    ensures
        is_lit(section, assets, k, q),
{
    let desc = desc_of(section, assets, k);
    let (x_rot, y_rot) = (desc.x_rotation as int, desc.y_rotation as int);
    assert forall|i: int, axis: Axis|
        0 <= i < 4 && #[trigger] q.rotated_dir.unit().along(axis) != 0 implies if model_of(
        section,
        assets,
        k,
    ).ambient_occlusion {
        let c = face_corners(side_of(k))[i];
        is_light_at(
            section,
            Vec3 { x: k.x + 1, y: k.y + 1, z: k.z + 1 },
            turned_int(
                Vec3 { x: 2 * c.x - 1, y: 2 * c.y - 1, z: 2 * c.z - 1 },
                desc.x_rotation as int,
                desc.y_rotation as int,
            ),
            axis,
            (#[trigger] q.ao@[i]) as int,
        )
    } else {
        q.ao@[i] == 3
    } by {
        let c = face_corners(side_of(k))[i];
        let t = turned_corner(c, x_rot, y_rot);
        law_corners_turn_about_the_centre(c, c, x_rot, y_rot);
        law_blocks_take_the_light(section, padded(spot(k)), t, q.rotated_dir, axis);
    }
}

proof fn lemma_face<C>(section: LocalSection, assets: MeshAssets<C>, k: Place)
    requires
        0 <= k.x < 16,
        0 <= k.y < 16,
        0 <= k.z < 16,
        block_of(section, k).id != 0,
        block_of(section, k).id < assets.variants@.len(),
        0 <= k.variant < assets.variants@[block_of(section, k).id as int]@.len(),
        0 <= k.element < model_of(section, assets, k).elements@.len(),
        0 <= k.face < 6,
    ensures
        ({
            let quads = face_quads(
                section,
                assets,
                spot(k),
                desc_of(section, assets, k),
                k.element,
                k.face,
            );
            if shows(section, assets, k) {
                quads.len() == 1 && is_shown_as(section, assets, k, quads[0])
            } else {
                quads.len() == 0
            }
        }),
{
    let desc = desc_of(section, assets, k);
    let model = model_of(section, assets, k);
    let dir = side_of(k);
    assert(dir == face_dir(k.face));
    assert(model.elements.len() == model.elements@.len());
    if let Some(face) = face_of(section, assets, k) {
        lemma_hidden(section, k, desc, face);
        if shows(section, assets, k) {
            let q = visible_quad(section, assets, spot(k), desc, k.element, dir, face);
            law_directions_turn_like_positions(
                dir,
                desc.x_rotation as int,
                desc.y_rotation as int,
            );
            law_locked_angle_undoes_the_turn(dir, desc.y_rotation as int);
            lemma_lit(section, assets, k, q);
        }
    }
}

/// Whether there are places that list `quads`.
spec fn listed<C>(
    section: LocalSection,
    assets: MeshAssets<C>,
    quads: Seq<Quad>,
    member: spec_fn(Place) -> bool,
) -> bool {
    exists|places: Seq<Place>| lists(section, assets, quads, places, member)
}

/// The places of part number `i`.
spec fn only(part: spec_fn(int, Place) -> bool, i: int) -> spec_fn(Place) -> bool {
    |k: Place| part(i, k)
}

/// Parts that are listed, and whose places follow each other, are listed together.
proof fn lemma_join<C>(
    section: LocalSection,
    assets: MeshAssets<C>,
    n: nat,
    f: spec_fn(int) -> Seq<Quad>,
    part: spec_fn(int, Place) -> bool,
    whole: spec_fn(Place) -> bool,
)
    requires
        forall|i: int|
            0 <= i < n ==> listed(section, assets, #[trigger] f(i), only(part, i)),
        forall|i: int, j: int, a: Place, b: Place|
            0 <= i < j < n && #[trigger] part(i, a) && #[trigger] part(j, b) ==> before(a, b),
        forall|k: Place| #[trigger] whole(k) <==> exists|i: int| 0 <= i < n && #[trigger] part(i, k),
    ensures
        listed(section, assets, concat(n, f), whole),
    decreases n,
{
    if n == 0 {
        let none = Seq::<Place>::empty();
        assert forall|k: Place| #[trigger] none.contains(k) <==> whole(k) by {}
        assert(lists(section, assets, concat(n, f), none, whole));
    } else {
        let m = (n - 1) as nat;
        let init = |k: Place| exists|i: int| 0 <= i < m && #[trigger] part(i, k);
        lemma_join(section, assets, m, f, part, init);
        let head = choose|places: Seq<Place>|
            lists(section, assets, concat(m, f), places, init);
        let (tail, ending) = (f(n - 1), only(part, n - 1));
        assert(listed(section, assets, tail, ending));
        let last = choose|places: Seq<Place>| lists(section, assets, tail, places, ending);
        let all = head + last;
        assert forall|i: int, j: int| 0 <= i < j < all.len() implies before(
            #[trigger] all[i],
            #[trigger] all[j],
        ) by {
            if j < head.len() {
                assert(before(head[i], head[j]));
            } else if i >= head.len() {
                assert(before(last[i - head.len()], last[j - head.len()]));
            } else {
                let (a, b) = (head[i], last[j - head.len()]);
                assert(head.contains(a) && last.contains(b));
                assert(init(a));
                let h = choose|h: int| 0 <= h < m && #[trigger] part(h, a);
                assert(part(n - 1, b));
            }
        }
        assert forall|k: Place| #[trigger] all.contains(k) <==> whole(k) by {
            if all.contains(k) {
                let i = choose|i: int| 0 <= i < all.len() && all[i] == k;
                if i < head.len() {
                    assert(head[i] == k);
                    assert(head.contains(k));
                    let h = choose|h: int| 0 <= h < m && #[trigger] part(h, k);
                    assert(part(h, k));
                } else {
                    assert(last[i - head.len()] == k);
                    assert(last.contains(k));
                    assert(part(n - 1, k));
                }
            }
            if whole(k) {
                let h = choose|h: int| 0 <= h < n && #[trigger] part(h, k);
                if h < m {
                    assert(init(k));
                    assert(head.contains(k));
                    let i = choose|i: int| 0 <= i < head.len() && head[i] == k;
                    assert(all[i] == k);
                } else {
                    assert(last.contains(k));
                    let i = choose|i: int| 0 <= i < last.len() && last[i] == k;
                    assert(all[head.len() + i] == k);
                }
            }
        }
        assert forall|i: int| 0 <= i < concat(n, f).len() implies is_shown_as(
            section,
            assets,
            #[trigger] all[i],
            concat(n, f)[i],
        ) by {
            if i < head.len() {
                assert(is_shown_as(section, assets, head[i], concat(m, f)[i]));
            } else {
                assert(is_shown_as(
                    section,
                    assets,
                    last[i - head.len()],
                    f(n - 1)[i - head.len()],
                ));
            }
        }
        assert(lists(section, assets, concat(n, f), all, whole));
    }
}

/// The places of one element that show.
spec fn in_element<C>(section: LocalSection, assets: MeshAssets<C>, at: Place) -> spec_fn(
    Place,
) -> bool {
    |k: Place|
        shows(section, assets, k) && k.y == at.y && k.x == at.x && k.z == at.z && k.variant
            == at.variant && k.element == at.element
}

/// The places of one model that show.
spec fn in_variant<C>(section: LocalSection, assets: MeshAssets<C>, at: Place) -> spec_fn(
    Place,
) -> bool {
    |k: Place|
        shows(section, assets, k) && k.y == at.y && k.x == at.x && k.z == at.z && k.variant
            == at.variant
}

/// The places of one block that show.
spec fn in_block<C>(section: LocalSection, assets: MeshAssets<C>, at: Place) -> spec_fn(
    Place,
) -> bool {
    |k: Place| shows(section, assets, k) && k.y == at.y && k.x == at.x && k.z == at.z
}

proof fn lemma_element<C>(section: LocalSection, assets: MeshAssets<C>, at: Place)
    requires
        0 <= at.x < 16,
        0 <= at.y < 16,
        0 <= at.z < 16,
        block_of(section, at).id != 0,
        block_of(section, at).id < assets.variants@.len(),
        0 <= at.variant < assets.variants@[block_of(section, at).id as int]@.len(),
        0 <= at.element < model_of(section, assets, at).elements@.len(),
    ensures
        listed(
            section,
            assets,
            by_element(section, assets, spot(at), desc_of(section, assets, at))(at.element),
            in_element(section, assets, at),
        ),
{
    let f = by_face(section, assets, spot(at), desc_of(section, assets, at), at.element);
    let part = |i: int, k: Place| in_element(section, assets, at)(k) && k.face == i;
    assert forall|i: int| 0 <= i < 6 implies listed(
        section,
        assets,
        #[trigger] f(i),
        only(part, i),
    ) by {
        let k = Place { face: i, ..at };
        assert(desc_of(section, assets, k) == desc_of(section, assets, at));
        lemma_face(section, assets, k);
        let places = if shows(section, assets, k) {
            seq![k]
        } else {
            Seq::empty()
        };
        assert forall|other: Place| #[trigger] places.contains(other) <==> part(i, other) by {
            if part(i, other) {
                assert(other == k);
                assert(places[0] == k);
            }
        }
        assert(lists(section, assets, f(i), places, only(part, i)));
    }
    assert forall|k: Place| #[trigger] in_element(section, assets, at)(k) implies exists|i: int|
        0 <= i < 6 && #[trigger] part(i, k) by {
        assert(part(k.face, k));
    }
    lemma_join(section, assets, FACE_COUNT as nat, f, part, in_element(section, assets, at));
}

proof fn lemma_variant<C>(section: LocalSection, assets: MeshAssets<C>, at: Place)
    requires
        0 <= at.x < 16,
        0 <= at.y < 16,
        0 <= at.z < 16,
        block_of(section, at).id != 0,
        block_of(section, at).id < assets.variants@.len(),
        0 <= at.variant < assets.variants@[block_of(section, at).id as int]@.len(),
    ensures
        listed(
            section,
            assets,
            variant_quads(section, assets, spot(at), desc_of(section, assets, at)),
            in_variant(section, assets, at),
        ),
{
    let f = by_element(section, assets, spot(at), desc_of(section, assets, at));
    let n = model_of(section, assets, at).elements@.len();
    let part = |i: int, k: Place| in_variant(section, assets, at)(k) && k.element == i;
    assert forall|i: int| 0 <= i < n implies listed(
        section,
        assets,
        #[trigger] f(i),
        only(part, i),
    ) by {
        let k = Place { element: i, ..at };
        assert(desc_of(section, assets, k) == desc_of(section, assets, at));
        lemma_element(section, assets, k);
        assert(in_element(section, assets, k) =~= only(part, i));
    }
    assert forall|k: Place| #[trigger] in_variant(section, assets, at)(k) implies exists|i: int|
        0 <= i < n && #[trigger] part(i, k) by {
        assert(model_of(section, assets, k) == model_of(section, assets, at));
        assert(part(k.element, k));
    }
    lemma_join(section, assets, n, f, part, in_variant(section, assets, at));
}

proof fn lemma_block<C>(section: LocalSection, assets: MeshAssets<C>, at: Place)
    requires
        0 <= at.x < 16,
        0 <= at.y < 16,
        0 <= at.z < 16,
    ensures
        listed(
            section,
            assets,
            block_quads(section, assets, spot(at)),
            in_block(section, assets, at),
        ),
{
    let state = block_of(section, at);
    assert(state == state_at(section, spot(at)));
    if state.id == 0 || state.id >= assets.variants@.len() {
        let none = Seq::<Place>::empty();
        assert forall|k: Place| #[trigger] none.contains(k) <==> in_block(section, assets, at)(k) by {
            if in_block(section, assets, at)(k) {
                assert(block_of(section, k) == state);
            }
        }
        assert(lists(
            section,
            assets,
            block_quads(section, assets, spot(at)),
            none,
            in_block(section, assets, at),
        ));
    } else {
        let f = by_variant(section, assets, spot(at));
        let n = assets.variants@[state.id as int]@.len();
        let part = |i: int, k: Place| in_block(section, assets, at)(k) && k.variant == i;
        assert forall|i: int| 0 <= i < n implies listed(
            section,
            assets,
            #[trigger] f(i),
            only(part, i),
        ) by {
            let k = Place { variant: i, ..at };
            assert(block_of(section, k) == state);
            lemma_variant(section, assets, k);
            assert(in_variant(section, assets, k) =~= only(part, i));
        }
        assert forall|k: Place| #[trigger] in_block(section, assets, at)(k) implies exists|i: int|
            0 <= i < n && #[trigger] part(i, k) by {
            assert(block_of(section, k) == state);
            assert(part(k.variant, k));
        }
        lemma_join(section, assets, n, f, part, in_block(section, assets, at));
    }
}

/// All places that show.
pub open spec fn visible<C>(section: LocalSection, assets: MeshAssets<C>) -> spec_fn(
    Place,
) -> bool {
    |k: Place| shows(section, assets, k)
}

/// The mesh shows every face that is visible, as the blocks and the models say it
/// shows, once and in order; and it shows nothing else.
pub proof fn law_mesh_lists_the_visible_faces<C>(section: LocalSection, assets: MeshAssets<C>)
    ensures
        exists|places: Seq<Place>| #[trigger]
            lists(
                section,
                assets,
                all_quads(section, assets),
                places,
                visible(section, assets),
            ),
{
    let whole = visible(section, assets);
    let layer = |y: int, k: Place| shows(section, assets, k) && k.y == y;
    assert forall|y: int| 0 <= y < 16 implies listed(
        section,
        assets,
        #[trigger] by_y(section, assets)(y),
        only(layer, y),
    ) by {
        let row = |x: int, k: Place| layer(y, k) && k.x == x;
        assert forall|x: int| 0 <= x < 16 implies listed(
            section,
            assets,
            #[trigger] by_x(section, assets, y)(x),
            only(row, x),
        ) by {
            let cell = |z: int, k: Place| row(x, k) && k.z == z;
            assert forall|z: int| 0 <= z < 16 implies listed(
                section,
                assets,
                #[trigger] by_z(section, assets, y, x)(z),
                only(cell, z),
            ) by {
                let at = Place { y, x, z, variant: 0, element: 0, face: 0 };
                lemma_block(section, assets, at);
                assert(in_block(section, assets, at) =~= only(cell, z));
            }
            assert forall|k: Place| #[trigger] row(x, k) implies exists|z: int|
                0 <= z < 16 && #[trigger] cell(z, k) by {
                assert(cell(k.z, k));
            }
            lemma_join(
                section,
                assets,
                16,
                by_z(section, assets, y, x),
                cell,
                only(row, x),
            );
        }
        assert forall|k: Place| #[trigger] layer(y, k) implies exists|x: int|
            0 <= x < 16 && #[trigger] row(x, k) by {
            assert(row(k.x, k));
        }
        lemma_join(section, assets, 16, by_x(section, assets, y), row, only(layer, y));
    }
    assert forall|k: Place| #[trigger] whole(k) implies exists|y: int|
        0 <= y < 16 && #[trigger] layer(y, k) by {
        assert(layer(k.y, k));
    }
    lemma_join(section, assets, 16, by_y(section, assets), layer, whole);
    assert(listed(section, assets, all_quads(section, assets), visible(section, assets)));
}

/// Every quad of a mesh, on whatever side, has at each corner the light that the
/// blocks beside and across the turned corner leave it, or full light where its model
/// is not shaded. It is fully bright all around only where none of these blocks stops
/// light.
pub proof fn law_quads_are_lit_by_the_blocks_around<C>(
    section: LocalSection,
    assets: MeshAssets<C>,
    q: Quad,
    i: int,
    axis: Axis,
)
    requires
        all_quads(section, assets).contains(q),
        0 <= i < 4,
        q.rotated_dir.unit().along(axis) != 0,
    ensures
        assets.models@[q.model as int].ambient_occlusion ==> ({
            let c = face_corners(q.dir)[i];
            let out = turned_int(
                Vec3 { x: 2 * c.x - 1, y: 2 * c.y - 1, z: 2 * c.z - 1 },
                q.x_rotation as int,
                q.y_rotation as int,
            );
            let (x, y, z) = (q.block.x + 1, q.block.y + 1, q.block.z + 1);
            &&& is_light_at(section, Vec3 { x, y, z }, out, axis, q.ao@[i] as int)
            &&& q.ao@[i] == 3 ==> !stops_light(section, x + out.x, y + out.y, z + out.z)
            &&& q.ao@[i] == 3 && !(axis is X) ==> !stops_light(section, x, y + out.y, z + out.z)
            &&& q.ao@[i] == 3 && !(axis is Y) ==> !stops_light(section, x + out.x, y, z + out.z)
            &&& q.ao@[i] == 3 && !(axis is Z) ==> !stops_light(section, x + out.x, y + out.y, z)
        }),
        !assets.models@[q.model as int].ambient_occlusion ==> q.ao@[i] == 3,
{
    let k = lemma_place_of(section, assets, q);
    assert(is_lit(section, assets, k, q));
    assert(q.ao@[i] == q.ao@[i]);
}

/// Every quad of a mesh belongs to a variant of its block. Where that variant locks
/// textures, the texture turns against the turn of the model on the top, north and east
/// sides and with it on the others, sides being counted before the model is turned;
/// else it does not turn on that account.
pub proof fn law_locked_textures_stay_in_place<C>(
    section: LocalSection,
    assets: MeshAssets<C>,
    q: Quad,
)
    requires
        all_quads(section, assets).contains(q),
    ensures
        ({
            let id = section.blocks@[q.block.x + 1]@[q.block.y + 1]@[q.block.z + 1].id as int;
            exists|v: int|
                {
                    let desc = #[trigger] assets.variants@[id]@[v];
                    &&& 0 <= v < assets.variants@[id]@.len()
                    &&& desc.model == q.model && desc.x_rotation == q.x_rotation
                    &&& desc.y_rotation == q.y_rotation
                    &&& desc.uvlock && (q.dir is Up || q.dir is North || q.dir is East) ==> (
                    q.uvlock_rotation + q.y_rotation) % 360 == 0
                    &&& desc.uvlock && (q.dir is Down || q.dir is South || q.dir is West) ==> (
                    q.uvlock_rotation - q.y_rotation) % 360 == 0
                    &&& !desc.uvlock ==> q.uvlock_rotation == 0
                }
        }),
        0 <= q.uvlock_rotation < 360,
{
    let k = lemma_place_of(section, assets, q);
    let id = section.blocks@[q.block.x + 1]@[q.block.y + 1]@[q.block.z + 1].id as int;
    assert(desc_of(section, assets, k) == assets.variants@[id]@[k.variant]);
}

/// The place of a quad of a mesh.
proof fn lemma_place_of<C>(section: LocalSection, assets: MeshAssets<C>, q: Quad) -> (k: Place)
    requires
        all_quads(section, assets).contains(q),
    ensures
        shows(section, assets, k),
        is_shown_as(section, assets, k, q),
{
    law_mesh_lists_the_visible_faces(section, assets);
    let quads = all_quads(section, assets);
    let places = choose|places: Seq<Place>| #[trigger]
        lists(section, assets, quads, places, visible(section, assets));
    let i = choose|i: int| 0 <= i < quads.len() && quads[i] == q;
    assert(is_shown_as(section, assets, places[i], quads[i]));
    assert(places.contains(places[i]));
    places[i]
}

/// A section can be meshed unless one of its own blocks, other than air, has a variant
/// whose model is not loaded, or one with locked textures whose turn cannot be negated
/// while one of its faces shows.
pub proof fn law_what_can_be_meshed<C>(section: LocalSection, assets: MeshAssets<C>)
    ensures
        can_mesh(section, assets) <==> forall|k: Place|
            {
                &&& 0 <= k.x < 16 && 0 <= k.y < 16 && 0 <= k.z < 16
                &&& (#[trigger] block_of(section, k)).id != 0
                &&& block_of(section, k).id < assets.variants@.len()
                &&& 0 <= k.variant < assets.variants@[block_of(section, k).id as int]@.len()
            } ==> {
                let desc = desc_of(section, assets, k);
                &&& desc.model < assets.models@.len()
                &&& shows(section, assets, k) && desc.uvlock ==> desc.y_rotation != i32::MIN
            },
{
    let good = |k: Place|
        {
            let desc = desc_of(section, assets, k);
            &&& desc.model < assets.models@.len()
            &&& shows(section, assets, k) && desc.uvlock ==> desc.y_rotation != i32::MIN
        };
    let asked = |k: Place|
        {
            &&& 0 <= k.x < 16 && 0 <= k.y < 16 && 0 <= k.z < 16
            &&& block_of(section, k).id != 0
            &&& block_of(section, k).id < assets.variants@.len()
            &&& 0 <= k.variant < assets.variants@[block_of(section, k).id as int]@.len()
        };
    if can_mesh(section, assets) {
        assert forall|k: Place| #[trigger] block_of(section, k) == block_of(section, k) && asked(
            k,
        ) implies good(k) by {
            let p = spot(k);
            assert(in_section(p) && block_fits(section, assets, p));
            let desc = assets.descs_of(state_at(section, p))[k.variant];
            assert(variant_fits(section, assets, p, desc));
            if shows(section, assets, k) && desc.uvlock && desc.y_rotation == i32::MIN {
                lemma_face(section, assets, k);
                assert(face_quads(section, assets, p, desc, k.element, k.face).len() == 0);
            }
        }
    }
    if forall|k: Place| #[trigger] block_of(section, k) == block_of(section, k) && asked(k)
        ==> good(k) {
        assert forall|p: IVec3| in_section(p) implies #[trigger] block_fits(section, assets, p) by {
            let descs = assets.descs_of(state_at(section, p));
            if !state_at(section, p).airy() {
                assert forall|v: int| 0 <= v < descs.len() implies variant_fits(
                    section,
                    assets,
                    p,
                    #[trigger] descs[v],
                ) by {
                    let desc = descs[v];
                    let k = Place {
                        y: p.y as int,
                        x: p.x as int,
                        z: p.z as int,
                        variant: v,
                        element: 0,
                        face: 0,
                    };
                    assert(block_of(section, k) == state_at(section, p));
                    assert(asked(k));
                    assert(good(k));
                    if desc.uvlock && desc.y_rotation == i32::MIN {
                        assert forall|e: int, f: int|
                            0 <= e < assets.models@[desc.model as int].elements@.len() && 0 <= f
                                < FACE_COUNT implies (#[trigger] face_quads(
                            section,
                            assets,
                            p,
                            desc,
                            e,
                            f,
                        )).len() == 0 by {
                            let there = Place { element: e, face: f, ..k };
                            assert(block_of(section, there) == state_at(section, p));
                            assert(asked(there));
                            assert(good(there));
                            lemma_face(section, assets, there);
                        }
                    }
                }
            }
        }
    }
}

} // verus!
