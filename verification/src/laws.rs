//! What holds of every mesh.

use crate::assets::{MeshAssets, ModelFace, VariantDesc};
use crate::chunk::LocalSection;
use crate::direction::{lemma_name_identifies, Direction};
use crate::face::{face_corners, FACE_COUNT};
use crate::mesh::{
    all_quads, block_quads, by_element, by_face, by_variant, by_x, by_y, by_z, concat, corner_light,
    cull_side, face_quads, in_section, indices_of, is_culled, neighbour_at, padded, state_at,
    shaped_by, triangle_corner, vertices_of, Quad, QuadGeometry, MAX_QUADS,
};
use crate::occlusion::{darkened_by, in_padded_section, shading_steps};
use crate::rotation::{
    centred, law_directions_turn_like_positions, lemma_unit_identifies, turned_corner,
    turned_direction,
};
use crate::vec3::{cross, dot, vec_add, vec_sub, IVec3, Vec3};
use vstd::prelude::*;

verus! {

/// Every quad contributes four vertices and six indices, and its indices name its
/// own vertices.
pub proof fn law_indices_name_their_own_quad<P, U>(
    quads: Seq<Quad>,
    geometry: Seq<QuadGeometry<P, U>>,
    k: int,
)
    requires
        quads.len() == geometry.len(),
        quads.len() <= MAX_QUADS,
        0 <= k < indices_of(geometry).len(),
    ensures
        vertices_of(quads, geometry).len() == 4 * quads.len(),
        indices_of(geometry).len() == 6 * quads.len(),
        4 * (k / 6) <= indices_of(geometry)[k] < 4 * (k / 6) + 4,
        indices_of(geometry)[k] < vertices_of(quads, geometry).len(),
{
}

/// Each vertex of a mesh belongs to one corner of one quad, and carries what that quad
/// and its coordinates have for that corner.
pub proof fn law_vertices_carry_their_own_corner<P, U>(
    quads: Seq<Quad>,
    geometry: Seq<QuadGeometry<P, U>>,
    n: int,
    i: int,
)
    requires
        quads.len() == geometry.len(),
        0 <= n < quads.len(),
        0 <= i < 4,
    ensures
        vertices_of(quads, geometry).len() == 4 * quads.len(),
        vertices_of(quads, geometry)[4 * n + i].tex_idx == quads[n].tex_idx,
        vertices_of(quads, geometry)[4 * n + i].ao == quads[n].ao@[i],
        vertices_of(quads, geometry)[4 * n + i].position == geometry[n].positions@[i],
        vertices_of(quads, geometry)[4 * n + i].uv == geometry[n].uvs@[i],
{
    assert((4 * n + i) / 4 == n && (4 * n + i) % 4 == i);
}

/// A quad is split along the diagonal from its first to its third corner: three
/// corners on one side of it and three on the other, each triangle from the first
/// corner on, in the order of the corners or, if the quad is inverted, against it.
pub proof fn law_quads_are_split_along_their_diagonal<P, U>(
    geometry: Seq<QuadGeometry<P, U>>,
    n: int,
)
    requires
        geometry.len() <= MAX_QUADS,
        0 <= n < geometry.len(),
    ensures
        ({
            let t = indices_of(geometry);
            let first = 4 * n;
            &&& t.len() == 6 * geometry.len()
            &&& t[6 * n] == first && t[6 * n + 3] == first
            &&& !geometry[n].inverted ==> t[6 * n + 1] == first + 1 && t[6 * n + 2] == first + 2
                && t[6 * n + 4] == first + 2 && t[6 * n + 5] == first + 3
            &&& geometry[n].inverted ==> t[6 * n + 1] == first + 2 && t[6 * n + 2] == first + 1
                && t[6 * n + 4] == first + 3 && t[6 * n + 5] == first + 2
        }),
{
    assert forall|k: int| 0 <= k < 6 implies #[trigger] indices_of(geometry)[6 * n + k] == 4 * n
        + triangle_corner(geometry[n].inverted, k) by {
        assert((6 * n + k) / 6 == n && (6 * n + k) % 6 == k);
    }
    assert(indices_of(geometry)[6 * n + 0] == 4 * n);
}

/// Coordinates are asked for quad by quad: each shape is what the geometry gave for
/// the quad in the same place.
pub proof fn law_each_quad_has_its_own_shape<P, U, F: Fn(&Quad) -> QuadGeometry<P, U>>(
    geometry: F,
    quads: Seq<Quad>,
    shapes: Seq<QuadGeometry<P, U>>,
    n: int,
)
    requires
        shaped_by(geometry, quads, shapes),
        0 <= n < quads.len(),
    ensures
        shapes.len() == quads.len(),
        call_ensures(geometry, (&quads[n],), shapes[n]),
{
    assert(call_ensures(geometry, (&quads[n],), shapes[n]));
}

/// As many quads are allowed as have vertices that an index can name: the last vertex
/// of the last of them has the largest index there is.
pub proof fn law_as_many_quads_as_indices_can_name()
    ensures
        4 * MAX_QUADS - 1 == u32::MAX,
{
}

/// Each corner of a quad belongs to one of its triangles.
pub proof fn law_triangles_cover_the_quad(inverted: bool, corner: int)
    requires
        0 <= corner < 4,
    ensures
        exists|k: int| 0 <= k < 6 && #[trigger] triangle_corner(inverted, k) == corner,
{
    assert(triangle_corner(inverted, 0) == 0);
    assert(triangle_corner(inverted, 1) == if inverted { 2int } else { 1 });
    assert(triangle_corner(inverted, 2) == if inverted { 1int } else { 2 });
    assert(triangle_corner(inverted, 4) == if inverted { 3int } else { 2 });
    assert(triangle_corner(inverted, 5) == if inverted { 2int } else { 3 });
}

/// An inverted quad has the same two triangles, each run through the other way.
pub proof fn law_inverting_reverses_triangles(triangle: int)
    requires
        triangle == 0 || triangle == 1,
    ensures
        triangle_corner(true, 3 * triangle) == triangle_corner(false, 3 * triangle),
        triangle_corner(true, 3 * triangle + 1) == triangle_corner(false, 3 * triangle + 2),
        triangle_corner(true, 3 * triangle + 2) == triangle_corner(false, 3 * triangle + 1),
{
}

/// Every neighbour of a block of the section lies in the padded section.
pub proof fn law_neighbours_are_at_hand(p: IVec3, dir: Direction)
    requires
        in_section(p),
    ensures
        in_padded_section(vec_add(padded(p), dir.unit())),
{
}

/// Whether `q` is what a face of some model of the block at `p` shows.
pub open spec fn shows_at<C>(
    section: LocalSection,
    assets: MeshAssets<C>,
    p: IVec3,
    q: Quad,
) -> bool {
    &&& !state_at(section, p).airy()
    &&& exists|v: int, element: int, face: int|
        {
            let desc = assets.descs_of(state_at(section, p))[v];
            &&& 0 <= v < assets.descs_of(state_at(section, p)).len()
            &&& 0 <= element < assets.models@[desc.model as int].elements@.len()
            &&& 0 <= face < FACE_COUNT
            &&& (#[trigger] face_quads(
                section,
                assets,
                p,
                assets.descs_of(state_at(section, p))[v],
                element,
                face,
            )).contains(q)
        }
}

proof fn lemma_concat_contains<A>(n: nat, f: spec_fn(int) -> Seq<A>, a: A)
    ensures
        concat(n, f).contains(a) <==> exists|i: int| 0 <= i < n && (#[trigger] f(i)).contains(a),
    decreases n,
{
    if n > 0 {
        let head = concat((n - 1) as nat, f);
        let last = f(n - 1);
        lemma_concat_contains((n - 1) as nat, f, a);
        if concat(n, f).contains(a) {
            let k = choose|k: int| 0 <= k < (head + last).len() && (head + last)[k] == a;
            if k < head.len() {
                assert(head[k] == a);
            } else {
                assert(last[k - head.len()] == a);
            }
        }
        if head.contains(a) {
            let k = choose|k: int| 0 <= k < head.len() && head[k] == a;
            assert((head + last)[k] == a);
        }
        if last.contains(a) {
            let k = choose|k: int| 0 <= k < last.len() && last[k] == a;
            assert((head + last)[head.len() + k] == a);
        }
    }
}

proof fn lemma_block_shows<C>(section: LocalSection, assets: MeshAssets<C>, p: IVec3, q: Quad)
    ensures
        block_quads(section, assets, p).contains(q) <==> shows_at(section, assets, p, q),
{
    let descs = assets.descs_of(state_at(section, p));
    lemma_concat_contains(descs.len(), by_variant(section, assets, p), q);
    if block_quads(section, assets, p).contains(q) {
        let v = choose|v: int|
            0 <= v < descs.len() && (#[trigger] by_variant(section, assets, p)(v)).contains(q);
        let desc = descs[v];
        let count = assets.models@[desc.model as int].elements@.len();
        lemma_concat_contains(count, by_element(section, assets, p, desc), q);
        let e = choose|e: int|
            0 <= e < count && (#[trigger] by_element(section, assets, p, desc)(e)).contains(q);
        lemma_concat_contains(FACE_COUNT as nat, by_face(section, assets, p, desc, e), q);
        let face = choose|face: int|
            0 <= face < FACE_COUNT && (#[trigger] by_face(section, assets, p, desc, e)(
                face,
            )).contains(q);
        assert(face_quads(section, assets, p, descs[v], e, face).contains(q));
    }
    if shows_at(section, assets, p, q) {
        let (v, e, face) = choose|v: int, e: int, face: int|
            0 <= v < descs.len() && 0 <= e
                < assets.models@[descs[v].model as int].elements@.len() && 0 <= face < FACE_COUNT
                && (#[trigger] face_quads(section, assets, p, descs[v], e, face)).contains(q);
        let desc = descs[v];
        let count = assets.models@[desc.model as int].elements@.len();
        assert(by_face(section, assets, p, desc, e)(face).contains(q));
        lemma_concat_contains(FACE_COUNT as nat, by_face(section, assets, p, desc, e), q);
        assert(by_element(section, assets, p, desc)(e).contains(q));
        lemma_concat_contains(count, by_element(section, assets, p, desc), q);
        assert(by_variant(section, assets, p)(v).contains(q));
    }
}

/// The mesh shows exactly the faces of the models of those blocks that are not
/// air, as far as no neighbour hides them.
pub proof fn law_mesh_shows_what_is_visible<C>(
    section: LocalSection,
    assets: MeshAssets<C>,
    q: Quad,
)
    ensures
        all_quads(section, assets).contains(q) <==> exists|p: IVec3|
            in_section(p) && #[trigger] shows_at(section, assets, p, q),
{
    lemma_concat_contains(16, by_y(section, assets), q);
    if all_quads(section, assets).contains(q) {
        let y = choose|y: int|
            0 <= y < 16 && (#[trigger] by_y(section, assets)(y)).contains(q);
        lemma_concat_contains(16, by_x(section, assets, y), q);
        let x = choose|x: int|
            0 <= x < 16 && (#[trigger] by_x(section, assets, y)(x)).contains(q);
        lemma_concat_contains(16, by_z(section, assets, y, x), q);
        let z = choose|z: int|
            0 <= z < 16 && (#[trigger] by_z(section, assets, y, x)(z)).contains(q);
        let p = Vec3 { x: x as i32, y: y as i32, z: z as i32 };
        lemma_block_shows(section, assets, p, q);
        assert(in_section(p) && shows_at(section, assets, p, q));
    }
    if exists|p: IVec3| in_section(p) && #[trigger] shows_at(section, assets, p, q) {
        let p = choose|p: IVec3| in_section(p) && #[trigger] shows_at(section, assets, p, q);
        lemma_block_shows(section, assets, p, q);
        let (x, y, z) = (p.x as int, p.y as int, p.z as int);
        assert(by_z(section, assets, y, x)(z).contains(q));
        lemma_concat_contains(16, by_z(section, assets, y, x), q);
        assert(by_x(section, assets, y)(x).contains(q));
        lemma_concat_contains(16, by_x(section, assets, y), q);
        assert(by_y(section, assets)(y).contains(q));
    }
}

/// A section of nothing but air has an empty mesh.
pub proof fn law_air_shows_nothing<C>(section: LocalSection, assets: MeshAssets<C>)
    requires
        forall|p: IVec3| in_section(p) ==> (#[trigger] state_at(section, p)).airy(),
    ensures
        all_quads(section, assets).len() == 0,
{
    let quads = all_quads(section, assets);
    if quads.len() > 0 {
        law_mesh_shows_what_is_visible(section, assets, quads[0]);
        assert(quads.contains(quads[0]));
        let p = choose|p: IVec3|
            in_section(p) && #[trigger] shows_at(section, assets, p, quads[0]);
        assert(state_at(section, p).airy());
    }
}

/// Every quad of a mesh stands at a block of the section, has brightnesses from 0
/// to 3 and turns of less than a full circle.
pub proof fn law_quads_are_in_range<C>(section: LocalSection, assets: MeshAssets<C>, q: Quad)
    requires
        all_quads(section, assets).contains(q),
    ensures
        in_section(q.block),
        !state_at(section, q.block).airy(),
        forall|i: int| 0 <= i < 4 ==> #[trigger] q.ao@[i] <= 3,
        0 <= q.uv_rotation < 360,
        0 <= q.uvlock_rotation < 360,
{
    law_mesh_shows_what_is_visible(section, assets, q);
    let p = choose|p: IVec3| in_section(p) && #[trigger] shows_at(section, assets, p, q);
    assert(q.block == p);
}

/// A face that names no side, or something that is no side, is never hidden.
pub proof fn law_faces_without_a_side_are_not_culled<C>(
    section: LocalSection,
    p: IVec3,
    desc: VariantDesc,
    face: ModelFace<C>,
)
    requires
        face.cullface matches Some(name) ==> forall|d: Direction| #[trigger] d.name() != name@,
    ensures
        !is_culled(section, p, desc, face),
{
}

/// A face that names side `dir` is hidden exactly where the neighbour on the
/// turned side hides faces; on a model that is not turned that is the neighbour in
/// direction `dir`.
pub proof fn law_named_side_decides<C>(
    section: LocalSection,
    p: IVec3,
    desc: VariantDesc,
    face: ModelFace<C>,
    dir: Direction,
)
    requires
        face.cullface matches Some(name) && name@ == dir.name(),
    ensures
        is_culled(section, p, desc, face) == neighbour_at(
            section,
            p,
            turned_direction(dir, desc.x_rotation as int, desc.y_rotation as int),
        ).hides_faces(),
        desc.x_rotation as int % 360 == 0 && desc.y_rotation as int % 360 == 0 ==> is_culled(
            section,
            p,
            desc,
            face,
        ) == neighbour_at(section, p, dir).hides_faces(),
{
    lemma_name_identifies(dir);
    if desc.x_rotation as int % 360 == 0 && desc.y_rotation as int % 360 == 0 {
        law_directions_turn_like_positions(dir, desc.x_rotation as int, desc.y_rotation as int);
        lemma_unit_identifies(
            turned_direction(dir, desc.x_rotation as int, desc.y_rotation as int),
            dir,
        );
    }
}

/// Of two blocks that touch, each hides the face of the other that is pressed
/// against it, if it hides faces at all. The second block lies in direction `dir`
/// of the first, and the first in direction `back` of the second.
pub proof fn law_touching_blocks_hide_each_other<C>(
    section: LocalSection,
    first: IVec3,
    second: IVec3,
    dir: Direction,
    back: Direction,
    desc: VariantDesc,
    face: ModelFace<C>,
)
    requires
        second.to_int() == vec_add(first.to_int(), dir.unit()),
        first.to_int() == vec_add(second.to_int(), back.unit()),
    ensures
        cull_side(face, desc) == Some(dir) ==> is_culled(section, first, desc, face) == state_at(
            section,
            second,
        ).hides_faces(),
        cull_side(face, desc) == Some(back) ==> is_culled(section, second, desc, face) == state_at(
            section,
            first,
        ).hides_faces(),
{
}

proof fn lemma_concat_agrees<A>(n: nat, f: spec_fn(int) -> Seq<A>, g: spec_fn(int) -> Seq<A>)
    requires
        forall|i: int| 0 <= i < n ==> #[trigger] f(i) == g(i),
    ensures
        concat(n, f) == concat(n, g),
    decreases n,
{
    if n > 0 {
        lemma_concat_agrees((n - 1) as nat, f, g);
        assert(f(n - 1) == g(n - 1));
    }
}

/// Whether two sections look alike: their own blocks have the same state numbers,
/// and everywhere, in the padding too, the same blocks hide faces and the same
/// blocks darken corners.
pub open spec fn look_alike(a: LocalSection, b: LocalSection) -> bool {
    &&& forall|p: IVec3|
        in_section(p) ==> (#[trigger] state_at(a, p)).id == state_at(b, p).id
    &&& forall|x: int, y: int, z: int|
        0 <= x < 18 && 0 <= y < 18 && 0 <= z < 18 ==> (#[trigger] a.at(x, y, z)).hides_faces()
            == b.at(x, y, z).hides_faces() && a.at(x, y, z).darkens() == b.at(x, y, z).darkens()
}

proof fn lemma_face_agrees<C>(
    a: LocalSection,
    b: LocalSection,
    assets: MeshAssets<C>,
    p: IVec3,
    desc: VariantDesc,
    element: int,
    face: int,
)
    requires
        look_alike(a, b),
        in_section(p),
    ensures
        face_quads(a, assets, p, desc, element, face) == face_quads(
            b,
            assets,
            p,
            desc,
            element,
            face,
        ),
{
    assert forall|q: Vec3<int>| #[trigger] darkened_by(a, q) == darkened_by(b, q) by {
        if in_padded_section(q) {
            assert(a.at(q.x, q.y, q.z).darkens() == b.at(q.x, q.y, q.z).darkens());
        }
    }
    assert forall|dir: Direction| (#[trigger] neighbour_at(a, p, dir)).hides_faces()
        == neighbour_at(b, p, dir).hides_faces() by {
        law_neighbours_are_at_hand(p, dir);
        let n = vec_add(padded(p), dir.unit());
        assert(a.at(n.x, n.y, n.z).hides_faces() == b.at(n.x, n.y, n.z).hides_faces());
    }
    assert forall|model_face: ModelFace<C>| #[trigger] is_culled(a, p, desc, model_face)
        == is_culled(b, p, desc, model_face) by {
        if let Some(side) = cull_side(model_face, desc) {
            assert(neighbour_at(a, p, side).hides_faces() == neighbour_at(b, p, side).hides_faces());
        }
    }
    assert forall|shaded: bool, dir: Direction, i: int| #[trigger] corner_light(
        a,
        p,
        desc,
        shaded,
        dir,
        i,
    ) == corner_light(b, p, desc, shaded, dir, i) by {
        let corner = turned_corner(
            face_corners(dir)[i],
            desc.x_rotation as int,
            desc.y_rotation as int,
        );
        let turned = turned_direction(dir, desc.x_rotation as int, desc.y_rotation as int);
        let steps = shading_steps(centred(corner), turned);
        assert(darkened_by(a, vec_add(padded(p), steps.0)) == darkened_by(
            b,
            vec_add(padded(p), steps.0),
        ));
        assert(darkened_by(a, vec_add(padded(p), steps.1)) == darkened_by(
            b,
            vec_add(padded(p), steps.1),
        ));
        assert(darkened_by(a, vec_add(padded(p), steps.2)) == darkened_by(
            b,
            vec_add(padded(p), steps.2),
        ));
    }
}

proof fn lemma_blocks_agree<C>(
    a: LocalSection,
    b: LocalSection,
    assets: MeshAssets<C>,
    p: IVec3,
)
    requires
        look_alike(a, b),
        in_section(p),
    ensures
        block_quads(a, assets, p) == block_quads(b, assets, p),
{
    assert(state_at(a, p).id == state_at(b, p).id);
    let descs = assets.descs_of(state_at(a, p));
    assert forall|v: int| 0 <= v < descs.len() implies #[trigger] by_variant(a, assets, p)(v)
        == by_variant(b, assets, p)(v) by {
        let desc = descs[v];
        let count = assets.models@[desc.model as int].elements@.len();
        assert forall|e: int| 0 <= e < count implies #[trigger] by_element(a, assets, p, desc)(e)
            == by_element(b, assets, p, desc)(e) by {
            assert forall|face: int| 0 <= face < FACE_COUNT implies #[trigger] by_face(
                a,
                assets,
                p,
                desc,
                e,
            )(face) == by_face(b, assets, p, desc, e)(face) by {
                lemma_face_agrees(a, b, assets, p, desc, e, face);
            }
            lemma_concat_agrees(
                FACE_COUNT as nat,
                by_face(a, assets, p, desc, e),
                by_face(b, assets, p, desc, e),
            );
        }
        lemma_concat_agrees(
            count,
            by_element(a, assets, p, desc),
            by_element(b, assets, p, desc),
        );
    }
    lemma_concat_agrees(descs.len(), by_variant(a, assets, p), by_variant(b, assets, p));
}

/// Sections that look alike show the same faces: neither where a section stands
/// nor anything else about the blocks around it matters.
pub proof fn law_alike_sections_show_alike<C>(
    a: LocalSection,
    b: LocalSection,
    assets: MeshAssets<C>,
)
    requires
        look_alike(a, b),
    ensures
        all_quads(a, assets) == all_quads(b, assets),
{
    assert forall|y: int| 0 <= y < 16 implies #[trigger] by_y(a, assets)(y) == by_y(b, assets)(
        y,
    ) by {
        assert forall|x: int| 0 <= x < 16 implies #[trigger] by_x(a, assets, y)(x) == by_x(
            b,
            assets,
            y,
        )(x) by {
            assert forall|z: int| 0 <= z < 16 implies #[trigger] by_z(a, assets, y, x)(z) == by_z(
                b,
                assets,
                y,
                x,
            )(z) by {
                lemma_blocks_agree(
                    a,
                    b,
                    assets,
                    Vec3 { x: x as i32, y: y as i32, z: z as i32 },
                );
            }
            lemma_concat_agrees(16, by_z(a, assets, y, x), by_z(b, assets, y, x));
        }
        lemma_concat_agrees(16, by_x(a, assets, y), by_x(b, assets, y));
    }
    lemma_concat_agrees(16, by_y(a, assets), by_y(b, assets));
}

/// The same blocks show the same faces wherever the section stands.
pub proof fn law_place_does_not_matter<C>(
    a: LocalSection,
    b: LocalSection,
    assets: MeshAssets<C>,
)
    requires
        a.blocks == b.blocks,
    ensures
        all_quads(a, assets) == all_quads(b, assets),
{
    law_alike_sections_show_alike(a, b, assets);
}

/// The position of the vertex that comes at place `k` of the triangles of quad `n`.
pub open spec fn triangle_position<U>(
    quads: Seq<Quad>,
    geometry: Seq<QuadGeometry<Vec3<int>, U>>,
    n: int,
    k: int,
) -> Vec3<int> {
    vertices_of(quads, geometry)[indices_of(geometry)[6 * n + k] as int].position
}

/// The normal of the triangle `a`, `b`, `c`, on the side from which its corners run
/// counterclockwise.
pub open spec fn triangle_normal(a: Vec3<int>, b: Vec3<int>, c: Vec3<int>) -> Vec3<int> {
    cross(vec_sub(b, a), vec_sub(c, a))
}

/// A quad is marked as inverted where its first three corners face away from
/// `want`. Then neither of its triangles does: the first never faces away from
/// `want`, and where the quad is a parallelogram the second does not either.
pub proof fn law_triangles_face_the_wanted_way<U>(
    quads: Seq<Quad>,
    geometry: Seq<QuadGeometry<Vec3<int>, U>>,
    n: int,
    want: Vec3<int>,
)
    requires
        quads.len() == geometry.len(),
        quads.len() <= MAX_QUADS,
        0 <= n < quads.len(),
        geometry[n].inverted == (dot(
            triangle_normal(
                geometry[n].positions@[0],
                geometry[n].positions@[1],
                geometry[n].positions@[2],
            ),
            want,
        ) < 0),
    ensures
        dot(
            triangle_normal(
                triangle_position(quads, geometry, n, 0),
                triangle_position(quads, geometry, n, 1),
                triangle_position(quads, geometry, n, 2),
            ),
            want,
        ) >= 0,
        vec_sub(geometry[n].positions@[3], geometry[n].positions@[0]) == vec_sub(
            geometry[n].positions@[2],
            geometry[n].positions@[1],
        ) ==> dot(
            triangle_normal(
                triangle_position(quads, geometry, n, 3),
                triangle_position(quads, geometry, n, 4),
                triangle_position(quads, geometry, n, 5),
            ),
            want,
        ) >= 0,
{
    let shape = geometry[n];
    assert forall|k: int| 0 <= k < 6 implies #[trigger] triangle_position(quads, geometry, n, k)
        == shape.positions@[triangle_corner(shape.inverted, k)] by {
        let i = 4 * n + triangle_corner(shape.inverted, k);
        assert((6 * n + k) / 6 == n && (6 * n + k) % 6 == k);
        assert(indices_of(geometry)[6 * n + k] == i);
        assert(i / 4 == n && i % 4 == triangle_corner(shape.inverted, k));
    }
    let a = shape.positions@[0];
    let u = vec_sub(shape.positions@[1], a);
    let v = vec_sub(shape.positions@[2], a);
    let w = vec_sub(shape.positions@[3], a);
    lemma_exchange_reverses(u, v, want);
    if w == vec_sub(shape.positions@[2], shape.positions@[1]) {
        assert(w == vec_sub(v, u));
        lemma_parallelogram(u, v);
        lemma_exchange_reverses(v, w, want);
    }
}

/// Exchanging the sides of a triangle reverses its normal.
proof fn lemma_exchange_reverses(u: Vec3<int>, v: Vec3<int>, want: Vec3<int>)
    ensures
        dot(cross(v, u), want) == -dot(cross(u, v), want),
{
    let c = cross(u, v);
    let d = cross(v, u);
    assert(d.x == -c.x && d.y == -c.y && d.z == -c.z) by {
        broadcast use vstd::arithmetic::mul::lemma_mul_is_commutative;

    }
    let (x, y, z) = (c.x, c.y, c.z);
    let (p, q, r) = (want.x, want.y, want.z);
    assert((-x) * p + (-y) * q + (-z) * r == -(x * p + y * q + z * r)) by (nonlinear_arith);
}

/// The two triangles of a parallelogram have the same normal.
proof fn lemma_parallelogram(u: Vec3<int>, v: Vec3<int>)
    ensures
        cross(v, vec_sub(v, u)) == cross(u, v),
{
    lemma_shear(u.y, v.y, u.z, v.z);
    lemma_shear(u.z, v.z, u.x, v.x);
    lemma_shear(u.x, v.x, u.y, v.y);
}

proof fn lemma_shear(p: int, q: int, r: int, s: int)
    by (nonlinear_arith)
    ensures
        q * (s - r) - s * (q - p) == p * s - r * q,
{
}

} // verus!
