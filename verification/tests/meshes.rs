use mesher::assets::{
    offset_to_coord, BlockModel, Cube, CubeFaces, MeshAssets, ModelFace, VariantDesc,
};
use mesher::block::BlockState;
use mesher::chunk::{ChunkSectionPos, LocalSection};
use mesher::direction::Direction;
use mesher::mesh::{
    build_mesh, mesh_quads, mesh_section, quad_indices, section_is_meshable, section_quads, Quad,
    QuadGeometry, MAX_QUADS,
};
use mesher::vec3::Vec3;

fn solid(id: u32) -> BlockState {
    BlockState { id, can_occlude: true, collision_shape_empty: false, collision_shape_full: true }
}

fn section(places: &[(usize, usize, usize)], state: BlockState) -> LocalSection {
    let mut blocks = Box::new([[[BlockState::air(); 18]; 18]; 18]);
    for &(x, y, z) in places {
        blocks[x + 1][y + 1][z + 1] = state;
    }
    LocalSection { blocks, spos: ChunkSectionPos { x: 1, y: 2, z: 3 } }
}

fn face(cullface: Option<&str>) -> Option<ModelFace<f32>> {
    Some(ModelFace {
        texture: "#all".to_string(),
        cullface: cullface.map(|s| s.to_string()),
        uv: None,
        rotation: 0,
    })
}

fn full_cube() -> Cube<f32> {
    Cube {
        from: Vec3::new(0.0, 0.0, 0.0),
        to: Vec3::new(16.0, 16.0, 16.0),
        faces: CubeFaces {
            down: face(Some("down")),
            up: face(Some("up")),
            north: face(Some("north")),
            south: face(Some("south")),
            west: face(Some("west")),
            east: face(Some("east")),
        },
    }
}

fn only_up(up: ModelFace<f32>) -> Cube<f32> {
    Cube {
        from: Vec3::new(0.0, 0.0, 0.0),
        to: Vec3::new(16.0, 8.0, 16.0),
        faces: CubeFaces {
            down: None,
            up: Some(up),
            north: None,
            south: None,
            west: None,
            east: None,
        },
    }
}

fn desc(model: usize, x_rotation: i32, y_rotation: i32, uvlock: bool) -> VariantDesc {
    VariantDesc { model, x_rotation, y_rotation, uvlock }
}

fn pair<V>(key: &str, value: V) -> (String, V) {
    (key.to_string(), value)
}

fn model(elements: Vec<Cube<f32>>) -> BlockModel<f32> {
    BlockModel {
        elements,
        textures: vec![
            pair("#all", "block/stone".to_string()),
            pair("#side", "block/missing".to_string()),
            pair("#all", "block/dirt".to_string()),
        ],
        ambient_occlusion: true,
    }
}

fn texture_ids() -> Vec<(String, u32)> {
    vec![pair("block/dirt", 4), pair("block/stone", 9), pair("block/stone", 11)]
}

fn assets(descs: Vec<VariantDesc>, elements: Vec<Cube<f32>>) -> MeshAssets<f32> {
    MeshAssets {
        variants: vec![vec![], descs],
        models: vec![model(elements)],
        texture_ids: texture_ids(),
    }
}

fn cube_assets(x_rotation: i32, y_rotation: i32, uvlock: bool) -> MeshAssets<f32> {
    assets(vec![desc(0, x_rotation, y_rotation, uvlock)], vec![full_cube()])
}

fn dirs(quads: &[Quad]) -> Vec<Direction> {
    quads.iter().map(|q| q.dir).collect()
}

#[test]
fn a_lone_block_shows_all_faces_in_order() {
    let quads = section_quads(&section(&[(4, 5, 6)], solid(1)), &cube_assets(0, 0, false));
    assert_eq!(
        dirs(&quads),
        vec![
            Direction::Up,
            Direction::Down,
            Direction::South,
            Direction::North,
            Direction::East,
            Direction::West,
        ]
    );
    for q in &quads {
        assert_eq!(q.block, Vec3::new(4, 5, 6));
        assert_eq!((q.model, q.element), (0, 0));
        assert_eq!(q.rotated_dir, q.dir);
        assert_eq!(q.tex_idx, 9);
        assert_eq!(q.ao, [3, 3, 3, 3]);
        assert_eq!((q.uv_rotation, q.uvlock_rotation), (0, 0));
    }
}

#[test]
fn touching_blocks_hide_the_faces_between_them() {
    let quads =
        section_quads(&section(&[(4, 5, 6), (5, 5, 6)], solid(1)), &cube_assets(0, 0, false));
    assert_eq!(quads.len(), 10);
    let of = |x: i32| -> Vec<Direction> {
        quads.iter().filter(|q| q.block.x == x).map(|q| q.dir).collect()
    };
    assert!(!of(4).contains(&Direction::East));
    assert!(of(4).contains(&Direction::West));
    assert!(!of(5).contains(&Direction::West));
    assert!(of(5).contains(&Direction::East));
}

#[test]
fn padding_blocks_hide_but_do_not_show() {
    let mut s = section(&[(0, 0, 0), (15, 15, 15)], solid(1));
    s.blocks[0][1][1] = solid(1);
    s.blocks[1][0][1] = solid(1);
    s.blocks[16][16][17] = solid(1);
    let quads = section_quads(&s, &cube_assets(0, 0, false));
    let low: Vec<Direction> =
        quads.iter().filter(|q| q.block == Vec3::new(0, 0, 0)).map(|q| q.dir).collect();
    let high: Vec<Direction> =
        quads.iter().filter(|q| q.block == Vec3::new(15, 15, 15)).map(|q| q.dir).collect();
    assert_eq!(low, vec![Direction::Up, Direction::South, Direction::North, Direction::East]);
    assert_eq!(
        high,
        vec![
            Direction::Up,
            Direction::Down,
            Direction::North,
            Direction::East,
            Direction::West,
        ]
    );
    assert_eq!(quads.len(), 9);
}

#[test]
fn a_solid_section_shows_its_hull() {
    let blocks = Box::new([[[solid(1); 18]; 18]; 18]);
    let enclosed = LocalSection { blocks, spos: ChunkSectionPos { x: 0, y: 0, z: 0 } };
    assert!(section_quads(&enclosed, &cube_assets(0, 0, false)).is_empty());
    let mut places = Vec::new();
    for x in 0..16 {
        for y in 0..16 {
            for z in 0..16 {
                places.push((x, y, z));
            }
        }
    }
    let free = section(&places, solid(1));
    assert_eq!(section_quads(&free, &cube_assets(0, 0, false)).len(), 6 * 256);
}

#[test]
fn only_hiding_neighbours_hide() {
    let glass = BlockState { can_occlude: false, ..solid(1) };
    let empty = BlockState { collision_shape_empty: true, ..solid(1) };
    for state in [glass, empty] {
        let s = section(&[(4, 5, 6), (5, 5, 6)], state);
        assert_eq!(section_quads(&s, &cube_assets(0, 0, false)).len(), 12);
    }
    let slab = BlockState { collision_shape_full: false, ..solid(1) };
    let s = section(&[(4, 5, 6), (5, 5, 6)], slab);
    assert_eq!(section_quads(&s, &cube_assets(0, 0, false)).len(), 10);
}

#[test]
fn culling_turns_with_the_model() {
    let s = section(&[(4, 5, 6), (5, 5, 6)], solid(1));
    let quads = section_quads(&s, &cube_assets(0, 90, false));
    let of: Vec<Quad> = quads.iter().filter(|q| q.block.x == 4).copied().collect();
    assert!(!dirs(&of).contains(&Direction::North));
    assert!(dirs(&of).contains(&Direction::East));
    let east = of.iter().find(|q| q.dir == Direction::East).unwrap();
    assert_eq!(east.rotated_dir, Direction::South);
    assert_eq!((east.x_rotation, east.y_rotation), (0, 90));
}

#[test]
fn faces_without_a_known_side_are_never_hidden() {
    for name in [None, Some("bottom"), Some("")] {
        let up = face(name).unwrap();
        let a = assets(vec![desc(0, 0, 0, false)], vec![only_up(up)]);
        let s = section(&[(4, 5, 6), (4, 6, 6)], solid(1));
        assert_eq!(section_quads(&s, &a).len(), 2);
    }
    let up = face(Some("up")).unwrap();
    let a = assets(vec![desc(0, 0, 0, false)], vec![only_up(up)]);
    let s = section(&[(4, 5, 6), (4, 6, 6)], solid(1));
    let quads = section_quads(&s, &a);
    assert_eq!(quads.len(), 1);
    assert_eq!(quads[0].block, Vec3::new(4, 6, 6));
}

#[test]
fn textures_and_turns_are_carried_over() {
    let up = ModelFace { texture: "#none".to_string(), cullface: None, uv: None, rotation: -90 };
    let a = assets(vec![desc(0, 0, 90, true)], vec![only_up(up)]);
    let quads = section_quads(&section(&[(0, 0, 0)], solid(1)), &a);
    assert_eq!(quads[0].tex_idx, 0);
    assert_eq!(quads[0].uv_rotation, 270);
    assert_eq!(quads[0].uvlock_rotation, 270);
    let up = ModelFace { texture: "#all".to_string(), cullface: None, uv: None, rotation: 450 };
    let a = assets(vec![desc(0, 0, 90, false)], vec![only_up(up)]);
    let quads = section_quads(&section(&[(0, 0, 0)], solid(1)), &a);
    assert_eq!(quads[0].tex_idx, 9);
    assert_eq!(quads[0].uv_rotation, 90);
    assert_eq!(quads[0].uvlock_rotation, 0);
}

#[test]
fn corners_are_darkened_in_face_order() {
    let mut s = section(&[(4, 5, 6)], solid(1));
    s.blocks[6][7][8] = solid(1);
    let quads = section_quads(&s, &cube_assets(0, 0, false));
    let up = quads.iter().find(|q| q.block.x == 4 && q.dir == Direction::Up).unwrap();
    assert_eq!(up.ao, [3, 3, 2, 3]);
    let quads = section_quads(&s, &cube_assets(0, 90, false));
    let up = quads.iter().find(|q| q.block.x == 4 && q.dir == Direction::Up).unwrap();
    assert_eq!(up.ao, [3, 3, 3, 2]);
}

#[test]
fn models_without_occlusion_are_bright() {
    let mut s = section(&[(4, 5, 6)], solid(1));
    s.blocks[6][7][8] = solid(1);
    let mut a = cube_assets(0, 0, false);
    a.models[0].ambient_occlusion = false;
    for q in section_quads(&s, &a) {
        assert_eq!(q.ao, [3, 3, 3, 3]);
    }
}

#[test]
fn variants_and_elements_follow_each_other() {
    let up = || only_up(face(None).unwrap());
    let a = MeshAssets {
        variants: vec![vec![], vec![desc(1, 0, 0, false), desc(0, 0, 180, false)]],
        models: vec![
            model(vec![up()]),
            model(vec![up(), up()]),
        ],
        texture_ids: texture_ids(),
    };
    let quads = section_quads(&section(&[(0, 0, 0)], solid(1)), &a);
    let refs: Vec<(usize, usize, i32)> =
        quads.iter().map(|q| (q.model, q.element, q.y_rotation)).collect();
    assert_eq!(refs, vec![(1, 0, 0), (1, 1, 0), (0, 0, 180)]);
}

#[test]
fn blocks_follow_each_other_by_layer_and_row() {
    let up = face(None).unwrap();
    let a = assets(vec![desc(0, 0, 0, false)], vec![only_up(up)]);
    let s = section(&[(1, 0, 0), (0, 0, 1), (0, 0, 0), (0, 1, 0), (15, 15, 15)], solid(1));
    let order: Vec<(i32, i32, i32)> =
        section_quads(&s, &a).iter().map(|q| (q.block.x, q.block.y, q.block.z)).collect();
    assert_eq!(order, vec![(0, 0, 0), (0, 0, 1), (1, 0, 0), (0, 1, 0), (15, 15, 15)]);
}

#[test]
fn air_and_unknown_states_show_nothing() {
    let a = MeshAssets {
        variants: vec![vec![desc(0, 0, 0, false)]],
        models: vec![model(vec![full_cube()])],
        texture_ids: texture_ids(),
    };
    assert!(section_quads(&section(&[], solid(1)), &a).is_empty());
    assert!(section_quads(&section(&[(3, 3, 3)], solid(70)), &a).is_empty());
    let odd_air = solid(0);
    assert!(section_quads(&section(&[(3, 3, 3)], odd_air), &a).is_empty());
}

#[test]
fn lookups_find_what_is_there() {
    let a = cube_assets(0, 0, false);
    assert_eq!(a.get_variant_descs(solid(1)), &[desc(0, 0, 0, false)]);
    assert!(a.get_variant_descs(solid(0)).is_empty());
    assert!(a.get_variant_descs(solid(u32::MAX)).is_empty());
    assert!(a.get_block_model(0).is_some());
    assert!(a.get_block_model(1).is_none());
    let cube = &a.models[0].elements[0];
    assert!(cube.face(Direction::West).is_some());
    assert!(only_up(face(None).unwrap()).face(Direction::West).is_none());
}

#[test]
fn box_corners_are_selected_by_offset() {
    let cube = Cube {
        from: Vec3::new(1.0f32, 2.0, 3.0),
        to: Vec3::new(4.0, 5.0, 6.0),
        faces: full_cube().faces,
    };
    assert_eq!(offset_to_coord(Vec3::new(0, 0, 0), &cube), Vec3::new(1.0, 2.0, 3.0));
    assert_eq!(offset_to_coord(Vec3::new(1, 0, 1), &cube), Vec3::new(4.0, 2.0, 6.0));
    assert_eq!(offset_to_coord(Vec3::new(-7, 2, 0), &cube), Vec3::new(4.0, 5.0, 3.0));
}

#[test]
fn unloaded_models_cannot_be_meshed() {
    let a = assets(vec![desc(1, 0, 0, false)], vec![full_cube()]);
    assert!(!section_is_meshable(&section(&[(15, 15, 15)], solid(1)), &a));
    assert!(section_is_meshable(&section(&[], solid(1)), &a));
    let mut padded = section(&[], solid(1));
    padded.blocks[0][0][0] = solid(1);
    assert!(section_is_meshable(&padded, &a));
    assert!(section_is_meshable(&section(&[(0, 0, 0)], solid(1)), &cube_assets(0, 0, true)));
}

#[test]
fn turns_that_cannot_be_undone_cannot_be_meshed() {
    let s = section(&[(0, 0, 0)], solid(1));
    assert!(!section_is_meshable(&s, &cube_assets(0, i32::MIN, true)));
    assert!(section_is_meshable(&s, &cube_assets(0, i32::MIN, false)));
    let a = assets(vec![desc(0, 0, i32::MIN, true)], vec![]);
    assert!(section_is_meshable(&s, &a));
}

#[test]
fn quads_split_into_two_triangles() {
    assert_eq!(quad_indices(0, false), [0, 1, 2, 0, 2, 3]);
    assert_eq!(quad_indices(0, true), [0, 2, 1, 0, 3, 2]);
    assert_eq!(quad_indices(8, false), [8, 9, 10, 8, 10, 11]);
    assert_eq!(
        quad_indices(u32::MAX - 3, true),
        [u32::MAX - 3, u32::MAX - 1, u32::MAX - 2, u32::MAX - 3, u32::MAX, u32::MAX - 1]
    );
    assert_eq!(MAX_QUADS, 1 << 30);
}

fn geometry(q: &Quad) -> QuadGeometry<[f32; 3], [f32; 2]> {
    let x = q.block.x as f32;
    QuadGeometry {
        positions: [[x, 0.0, 0.0], [x, 1.0, 0.0], [x, 2.0, 0.0], [x, 3.0, 0.0]],
        uvs: [[0.0, 0.0], [0.25, 0.0], [0.5, 0.0], [0.75, 0.0]],
        inverted: q.dir == Direction::Down,
    }
}

#[test]
fn meshes_hold_four_vertices_and_six_indices_for_each_quad() {
    let s = section(&[(4, 5, 6)], solid(1));
    let mesh = mesh_section(&s, &cube_assets(0, 0, false), geometry);
    assert_eq!(mesh.section_pos, s.spos);
    assert_eq!(mesh.vertices.len(), 24);
    assert_eq!(mesh.indices.len(), 36);
    assert_eq!(mesh.indices[..6], [0, 1, 2, 0, 2, 3]);
    assert_eq!(mesh.indices[6..12], [4, 6, 5, 4, 7, 6]);
    assert_eq!(mesh.indices[30..], [20, 21, 22, 20, 22, 23]);
    for (k, v) in mesh.vertices.iter().enumerate() {
        assert_eq!(v.position, [4.0, (k % 4) as f32, 0.0]);
        assert_eq!(v.uv, [(k % 4) as f32 * 0.25, 0.0]);
        assert_eq!(v.ao, 3);
        assert_eq!(v.tex_idx, 9);
    }
    for (k, &i) in mesh.indices.iter().enumerate() {
        assert_eq!(i as usize / 4, k / 6);
    }
}

#[test]
fn vertices_carry_the_light_of_their_corner() {
    let mut s = section(&[(4, 5, 6)], solid(1));
    s.blocks[6][7][8] = solid(2);
    let a = cube_assets(0, 0, false);
    let mesh = mesh_section(&s, &a, geometry);
    let light: Vec<u32> = mesh.vertices[..4].iter().map(|v| v.ao).collect();
    assert_eq!(light, vec![3, 3, 2, 3]);
}

#[test]
fn place_does_not_matter() {
    let a = cube_assets(90, 180, true);
    let here = section(&[(4, 5, 6), (4, 6, 6)], solid(1));
    let mut there = section(&[(4, 5, 6), (4, 6, 6)], solid(1));
    there.spos = ChunkSectionPos { x: -100, y: 0, z: i32::MAX };
    assert_eq!(section_quads(&here, &a), section_quads(&there, &a));
}

#[test]
fn empty_sections_have_empty_meshes() {
    let s = section(&[], solid(1));
    let mesh = mesh_section(&s, &cube_assets(0, 0, false), geometry);
    assert!(mesh.vertices.is_empty());
    assert!(mesh.indices.is_empty());
}

#[test]
fn meshes_can_be_built_step_by_step() {
    let s = section(&[(4, 5, 6), (4, 6, 6)], solid(1));
    let a = cube_assets(0, 0, false);
    let quads = section_quads(&s, &a);
    let shapes: Vec<QuadGeometry<[f32; 3], [f32; 2]>> = quads.iter().map(geometry).collect();
    let whole = mesh_section(&s, &a, geometry);
    let steps = build_mesh(s.spos, &quads, &shapes);
    let called = mesh_quads(s.spos, &quads, geometry);
    assert_eq!(whole.vertices, steps.vertices);
    assert_eq!(whole.indices, steps.indices);
    assert_eq!(whole.vertices, called.vertices);
    assert_eq!(whole.indices, called.indices);
    assert_eq!(called.section_pos, s.spos);
}

#[test]
fn textures_are_resolved_by_key_and_then_by_name() {
    let a = cube_assets(0, 0, false);
    let m = &a.models[0];
    let key = |k: &str| k.to_string();
    assert_eq!(m.resolve_texture(&key("#all")), Some(&key("block/stone")));
    assert_eq!(m.resolve_texture(&key("#side")), Some(&key("block/missing")));
    assert_eq!(m.resolve_texture(&key("#top")), None);
    assert_eq!(a.get_texture_id(&key("block/stone")), Some(9));
    assert_eq!(a.get_texture_id(&key("block/dirt")), Some(4));
    assert_eq!(a.get_texture_id(&key("block/missing")), None);
    assert_eq!(a.face_texture(m, &key("#all")), 9);
    assert_eq!(a.face_texture(m, &key("#side")), 0);
    assert_eq!(a.face_texture(m, &key("#top")), 0);
    assert_eq!(a.face_texture(m, &key("block/stone")), 0);
}

#[test]
fn unloaded_textures_show_as_the_first() {
    let side = ModelFace { texture: "#side".to_string(), cullface: None, uv: None, rotation: 0 };
    let a = assets(vec![desc(0, 0, 0, false)], vec![only_up(side)]);
    let quads = section_quads(&section(&[(0, 0, 0)], solid(1)), &a);
    assert_eq!(quads.len(), 1);
    assert_eq!(quads[0].tex_idx, 0);
}

#[test]
fn padding_counts_only_for_what_it_hides() {
    let a = cube_assets(0, 90, false);
    let mut here = section(&[(0, 0, 0), (15, 7, 3)], solid(1));
    let mut there = section(&[(0, 0, 0), (15, 7, 3)], solid(1));
    here.blocks[0][1][1] = solid(70);
    there.blocks[0][1][1] = solid(5);
    there.blocks[17][8][4] =
        BlockState { id: 3, can_occlude: false, collision_shape_empty: true, collision_shape_full: true };
    assert_eq!(section_quads(&here, &a), section_quads(&there, &a));
    there.blocks[17][8][4] = solid(3);
    assert_ne!(section_quads(&here, &a), section_quads(&there, &a));
}

fn faces_up(a: [i32; 3], b: [i32; 3], c: [i32; 3]) -> i32 {
    let (uz, ux) = (b[2] - a[2], b[0] - a[0]);
    let (vz, vx) = (c[2] - a[2], c[0] - a[0]);
    uz * vx - ux * vz
}

#[test]
fn triangles_face_the_wanted_way() {
    let corners = [[0, 0, 0], [0, 0, 5], [7, 0, 5], [7, 0, 0]];
    let mut reversed = corners;
    reversed.reverse();
    let up = face(None).unwrap();
    let a = assets(vec![desc(0, 0, 0, false)], vec![only_up(up)]);
    let s = section(&[(0, 0, 0)], solid(1));
    for positions in [corners, reversed] {
        let inverted = faces_up(positions[0], positions[1], positions[2]) < 0;
        let mesh =
            mesh_section(&s, &a, |_: &Quad| QuadGeometry { positions, uvs: [(); 4], inverted });
        let at = |k: usize| mesh.vertices[mesh.indices[k] as usize].position;
        assert!(faces_up(at(0), at(1), at(2)) > 0);
        assert!(faces_up(at(3), at(4), at(5)) > 0);
    }
}
