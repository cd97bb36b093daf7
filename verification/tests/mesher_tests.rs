use voxel_mesher::ao::{ao_value, FaceAo};
use voxel_mesher::block::{BlockId, BlockInfo, BlockRegistry, Side};
use voxel_mesher::chunk::{make_padded, Chunk, Neighborhood};
use voxel_mesher::mesh::{select_uv_variant, uv_variant_corner, MeshError};
use voxel_mesher::mesher::{fill_slice, is_not_occluded, merge_slice, mesh_chunk, VoxelFace};
use voxel_mesher::{AREA, SIZE, VOLUME};

const AIR: u16 = 0;
const STONE: u16 = 1;
const WATER: u16 = 2;
const BARE: u16 = 3;
const BRICK: u16 = 4;

fn info(opaque: bool, liquid: bool, tex: Option<u16>) -> BlockInfo {
    BlockInfo {
        opaque,
        liquid,
        tex_top: tex,
        tex_bottom: tex,
        tex_right: tex,
        tex_left: tex,
        tex_front: tex,
        tex_back: tex,
    }
}

/// Air, stone, water, an opaque block with no texture registered, and a
/// second textured opaque block.
fn registry() -> BlockRegistry {
    BlockRegistry {
        infos: vec![
            info(false, false, None),
            info(true, false, Some(10)),
            info(false, true, Some(20)),
            info(true, false, None),
            info(true, false, Some(40)),
        ],
    }
}

fn empty_cells() -> Vec<BlockId> {
    vec![BlockId(AIR); VOLUME]
}

fn at(x: usize, y: usize, z: usize) -> usize {
    x * SIZE * SIZE + y * SIZE + z
}

fn chunk_from(cells: Vec<BlockId>) -> Chunk {
    Chunk::new(cells)
}

fn air_world(center: Chunk) -> Neighborhood<Chunk> {
    Neighborhood {
        center,
        top: Chunk::homogeneous(BlockId(AIR)),
        bottom: Chunk::homogeneous(BlockId(AIR)),
        left: Chunk::homogeneous(BlockId(AIR)),
        right: Chunk::homogeneous(BlockId(AIR)),
        front: Chunk::homogeneous(BlockId(AIR)),
        back: Chunk::homogeneous(BlockId(AIR)),
    }
}

#[test]
fn ao_value_follows_the_corner_rule() {
    assert_eq!(ao_value(false, false, false), 3);
    assert_eq!(ao_value(true, false, false), 2);
    assert_eq!(ao_value(false, true, false), 2);
    assert_eq!(ao_value(true, true, false), 1);
    // Two opaque edge samples fully occlude regardless of the corner.
    assert_eq!(ao_value(true, false, true), 0);
    assert_eq!(ao_value(true, true, true), 0);
}

#[test]
fn face_ao_packs_and_reads_back_corners() {
    let ao = FaceAo::pack(0, 1, 2, 3);
    assert_eq!(ao.corner_ao(FaceAo::AO_NEG_POS), 0);
    assert_eq!(ao.corner_ao(FaceAo::AO_NEG_NEG), 1);
    assert_eq!(ao.corner_ao(FaceAo::AO_POS_NEG), 2);
    assert_eq!(ao.corner_ao(FaceAo::AO_POS_POS), 3);
    assert_eq!(ao.0, 0b11_10_01_00);
}

#[test]
fn registry_answers_flags_and_textures() {
    let reg = registry();
    assert!(reg.opaque(BlockId(STONE)));
    assert!(!reg.opaque(BlockId(WATER)));
    assert!(reg.liquid(BlockId(WATER)));
    assert!(!reg.liquid(BlockId(STONE)));
    assert_eq!(reg.block_texture(BlockId(STONE), Side::Top), Some(10));
    assert_eq!(reg.block_texture(BlockId(BARE), Side::Left), None);
    // An unregistered id behaves as air.
    assert!(!reg.opaque(BlockId(999)));
    assert_eq!(reg.block_texture(BlockId(999), Side::Top), None);
}

#[test]
fn neighborhood_get_resolves_halo_coordinates() {
    let mut cells = empty_cells();
    cells[at(0, 2, 3)] = BlockId(STONE);
    let mut left_cells = empty_cells();
    left_cells[at(SIZE - 1, 2, 3)] = BlockId(BRICK);
    let mut n = air_world(chunk_from(cells));
    n.left = chunk_from(left_cells);
    assert_eq!(n.get(0, 2, 3), Some(BlockId(STONE)));
    // One cell out on the x axis wraps into the left neighbor.
    assert_eq!(n.get(-1, 2, 3), Some(BlockId(BRICK)));
    assert_eq!(n.get(SIZE as i32, 2, 3), Some(BlockId(AIR)));
}

#[test]
fn padded_chunk_samples_center_halo_and_edges() {
    let mut cells = empty_cells();
    cells[at(0, 0, 5)] = BlockId(STONE);
    let mut top_cells = empty_cells();
    top_cells[at(4, 0, 4)] = BlockId(BRICK);
    let mut n = air_world(chunk_from(cells));
    n.top = chunk_from(top_cells);
    let padded = make_padded(&n);
    // Center cell (0, 0, 5) sits at padded coordinate (1, 1, 6).
    assert_eq!(padded.get(1, 1, 6), BlockId(STONE));
    // The top halo layer comes from the top neighbor's bottom layer.
    assert_eq!(padded.get(5, SIZE + 1, 5), BlockId(BRICK));
    // A halo edge out of range on two axes holds air.
    assert_eq!(padded.get(0, 0, 5), BlockId(AIR));
}

#[test]
fn occlusion_rule_for_liquid_and_opaque_cells() {
    let reg = registry();
    let mut cells = empty_cells();
    cells[at(5, 5, 5)] = BlockId(WATER);
    cells[at(5, 4, 5)] = BlockId(STONE);
    cells[at(5, 5, 6)] = BlockId(WATER);
    cells[at(4, 5, 5)] = BlockId(STONE);
    cells[at(3, 5, 5)] = BlockId(STONE);
    let n = air_world(chunk_from(cells));
    let padded = make_padded(&n);
    // A liquid face is emitted iff the neighbor across it is non-opaque
    // and non-liquid.
    assert!(is_not_occluded(&padded, &reg, 6, 6, 6, Side::Top));
    assert!(!is_not_occluded(&padded, &reg, 6, 6, 6, Side::Bottom));
    assert!(!is_not_occluded(&padded, &reg, 6, 6, 6, Side::Front));
    assert!(!is_not_occluded(&padded, &reg, 6, 6, 6, Side::Left));
    // An opaque block facing a liquid still gets a face; facing another
    // opaque block it does not; air never emits.
    assert!(is_not_occluded(&padded, &reg, 6, 5, 6, Side::Top));
    assert!(is_not_occluded(&padded, &reg, 5, 6, 6, Side::Right));
    assert!(!is_not_occluded(&padded, &reg, 5, 6, 6, Side::Left));
    assert!(!is_not_occluded(&padded, &reg, 8, 8, 8, Side::Top));
}

#[test]
fn liquid_faces_carry_zero_ambient_occlusion() {
    let reg = registry();
    let mut cells = empty_cells();
    cells[at(5, 5, 5)] = BlockId(WATER);
    // Surround the water with opaque blocks in the sampling ring above.
    for x in 4..=6 {
        for z in 4..=6 {
            if !(x == 5 && z == 5) {
                cells[at(x, 6, z)] = BlockId(STONE);
            }
        }
    }
    let n = air_world(chunk_from(cells));
    let padded = make_padded(&n);
    let ao = voxel_mesher::mesher::face_ao(&padded, &reg, 6, 6, 6, Side::Top);
    assert_eq!(ao, FaceAo(0));
}

#[test]
fn two_opaque_edges_darken_a_corner_fully() {
    let reg = registry();
    let mut cells = empty_cells();
    cells[at(5, 5, 5)] = BlockId(STONE);
    // Both edge-adjacent samples of the (pos,pos) corner are opaque.
    cells[at(6, 6, 5)] = BlockId(STONE);
    cells[at(5, 6, 6)] = BlockId(STONE);
    let n = air_world(chunk_from(cells));
    let padded = make_padded(&n);
    let ao = voxel_mesher::mesher::face_ao(&padded, &reg, 6, 6, 6, Side::Top);
    assert_eq!(ao.corner_ao(FaceAo::AO_POS_POS), 0);
    // Every corner value stays within the two-bit range.
    for bits in [
        FaceAo::AO_NEG_POS,
        FaceAo::AO_NEG_NEG,
        FaceAo::AO_POS_NEG,
        FaceAo::AO_POS_POS,
    ] {
        assert!(ao.corner_ao(bits) <= 3);
    }
}

#[test]
fn flat_square_merges_into_one_wide_quad() {
    // A 2x2x1 slab of identical opaque blocks with open sky above merges
    // into a single 2-by-2 top quad, not four unit quads.
    let reg = registry();
    let mut cells = empty_cells();
    for x in 0..2 {
        for z in 0..2 {
            cells[at(x, 0, z)] = BlockId(STONE);
        }
    }
    let n = air_world(chunk_from(cells));
    let padded = make_padded(&n);
    let mut slice: Vec<VoxelFace> = vec![VoxelFace::default(); AREA];
    fill_slice(&mut slice, &padded, &reg, Side::Top, 0);
    let quads = merge_slice(&mut slice, &reg);
    assert_eq!(quads.len(), 1);
    assert_eq!(quads[0].u, 0);
    assert_eq!(quads[0].v, 0);
    assert_eq!(quads[0].quad.width, 2);
    assert_eq!(quads[0].quad.height, 2);
    assert_eq!(quads[0].quad.id, BlockId(STONE));
}

#[test]
fn differing_ids_never_merge() {
    let reg = registry();
    let mut cells = empty_cells();
    cells[at(0, 0, 0)] = BlockId(STONE);
    cells[at(1, 0, 0)] = BlockId(BRICK);
    let n = air_world(chunk_from(cells));
    let padded = make_padded(&n);
    let mut slice: Vec<VoxelFace> = vec![VoxelFace::default(); AREA];
    fill_slice(&mut slice, &padded, &reg, Side::Top, 0);
    let quads = merge_slice(&mut slice, &reg);
    assert_eq!(quads.len(), 2);
    for q in &quads {
        assert_eq!(q.quad.width, 1);
        assert_eq!(q.quad.height, 1);
    }
    assert_ne!(quads[0].quad.id, quads[1].quad.id);
}

#[test]
fn differing_shading_breaks_a_merge() {
    // Two identical blocks whose faces differ only in corner shading stay
    // two quads: a neighbor above one of them darkens its corners.
    let reg = registry();
    let mut cells = empty_cells();
    cells[at(0, 0, 0)] = BlockId(STONE);
    cells[at(0, 0, 1)] = BlockId(STONE);
    cells[at(0, 1, 2)] = BlockId(STONE);
    let n = air_world(chunk_from(cells));
    let padded = make_padded(&n);
    let mut slice: Vec<VoxelFace> = vec![VoxelFace::default(); AREA];
    fill_slice(&mut slice, &padded, &reg, Side::Top, 0);
    let quads = merge_slice(&mut slice, &reg);
    assert_eq!(quads.len(), 2);
    assert_ne!(quads[0].quad.ao, quads[1].quad.ao);
}

#[test]
fn fully_enclosed_world_emits_nothing() {
    // Every cell of the chunk and all six neighbors are opaque: no face
    // of either buffer is emitted.
    let reg = registry();
    let n = Neighborhood {
        center: Chunk::homogeneous(BlockId(STONE)),
        top: Chunk::homogeneous(BlockId(STONE)),
        bottom: Chunk::homogeneous(BlockId(STONE)),
        left: Chunk::homogeneous(BlockId(STONE)),
        right: Chunk::homogeneous(BlockId(STONE)),
        front: Chunk::homogeneous(BlockId(STONE)),
        back: Chunk::homogeneous(BlockId(STONE)),
    };
    let meshes = mesh_chunk(&reg, &n).unwrap();
    assert!(meshes.terrain.vertices.is_empty());
    assert!(meshes.terrain.indices.is_empty());
    assert!(meshes.liquid.vertices.is_empty());
    assert!(meshes.liquid.indices.is_empty());
}

#[test]
fn liquid_slab_emits_one_top_quad_and_no_terrain() {
    // A liquid layer with air above and opaque neighbor chunks on the
    // other five sides: exactly one top-facing liquid quad, no terrain.
    let reg = registry();
    let mut cells = empty_cells();
    for x in 0..SIZE {
        for z in 0..SIZE {
            cells[at(x, 0, z)] = BlockId(WATER);
        }
    }
    let n = Neighborhood {
        center: chunk_from(cells),
        top: Chunk::homogeneous(BlockId(AIR)),
        bottom: Chunk::homogeneous(BlockId(STONE)),
        left: Chunk::homogeneous(BlockId(STONE)),
        right: Chunk::homogeneous(BlockId(STONE)),
        front: Chunk::homogeneous(BlockId(STONE)),
        back: Chunk::homogeneous(BlockId(STONE)),
    };
    let meshes = mesh_chunk(&reg, &n).unwrap();
    assert!(meshes.terrain.vertices.is_empty());
    assert_eq!(meshes.liquid.vertices.len(), 4);
    assert_eq!(meshes.liquid.indices.len(), 6);
    // All four vertices lie on the liquid surface with an upward normal.
    for v in &meshes.liquid.vertices {
        assert_eq!(v.pos_y, 1);
        assert_eq!((v.norm_x, v.norm_y, v.norm_z), (0, 1, 0));
        assert_eq!(v.tex_id, 20);
    }
}

#[test]
fn meshing_twice_gives_identical_buffers() {
    let reg = registry();
    let mut cells = empty_cells();
    cells[at(3, 4, 5)] = BlockId(STONE);
    cells[at(4, 4, 5)] = BlockId(STONE);
    cells[at(3, 4, 6)] = BlockId(WATER);
    let n1 = air_world(chunk_from(cells.clone()));
    let n2 = air_world(chunk_from(cells));
    let m1 = mesh_chunk(&reg, &n1).unwrap();
    let m2 = mesh_chunk(&reg, &n2).unwrap();
    assert_eq!(m1.terrain.vertices, m2.terrain.vertices);
    assert_eq!(m1.terrain.indices, m2.terrain.indices);
    assert_eq!(m1.liquid.vertices, m2.liquid.vertices);
    assert_eq!(m1.liquid.indices, m2.liquid.indices);
}

#[test]
fn missing_texture_aborts_the_pass() {
    let reg = registry();
    let mut cells = empty_cells();
    cells[at(8, 8, 8)] = BlockId(BARE);
    let n = air_world(chunk_from(cells));
    let outcome = mesh_chunk(&reg, &n);
    // The first direction swept is Right, so the error names that side.
    assert_eq!(
        outcome.unwrap_err(),
        MeshError::MissingTexture { id: BlockId(BARE), side: Side::Right }
    );
}

#[test]
fn single_block_meshes_six_exact_quads() {
    let reg = registry();
    let mut cells = empty_cells();
    cells[at(2, 3, 4)] = BlockId(STONE);
    let n = air_world(chunk_from(cells));
    let meshes = mesh_chunk(&reg, &n).unwrap();
    assert_eq!(meshes.terrain.vertices.len(), 24);
    assert_eq!(meshes.terrain.indices.len(), 36);
    assert!(meshes.liquid.vertices.is_empty());
    // Index entries reference only the four vertices of their own quad.
    for (i, ix) in meshes.terrain.indices.iter().enumerate() {
        let quad = (i / 6) as u32;
        assert!(*ix >= quad * 4 && *ix < quad * 4 + 4);
    }
    // Free-standing faces are fully lit at every corner.
    for v in &meshes.terrain.vertices {
        assert_eq!(v.ao, 3);
        assert_eq!(v.tex_id, 10);
    }
}

#[test]
fn top_quad_vertices_are_exact() {
    // The merged 2x2 top quad of the slab scenario, in emission order.
    let reg = registry();
    let mut cells = empty_cells();
    for x in 0..2 {
        for z in 0..2 {
            cells[at(x, 0, z)] = BlockId(STONE);
        }
    }
    let n = air_world(chunk_from(cells));
    let meshes = mesh_chunk(&reg, &n).unwrap();
    let top: Vec<_> = meshes
        .terrain
        .vertices
        .iter()
        .filter(|v| v.norm_y == 1)
        .collect();
    assert_eq!(top.len(), 4);
    let pos: Vec<_> = top.iter().map(|v| (v.pos_x, v.pos_y, v.pos_z)).collect();
    assert_eq!(pos, vec![(0, 1, 2), (2, 1, 2), (0, 1, 0), (2, 1, 0)]);
    let uv: Vec<_> = top.iter().map(|v| (v.uv_u, v.uv_v)).collect();
    assert_eq!(uv, vec![(0, 0), (2, 0), (0, 2), (2, 2)]);
}

#[test]
fn uv_variant_selection_is_disableable() {
    assert_eq!(select_uv_variant(false), 0);
    for _ in 0..32 {
        assert!(select_uv_variant(true) < 4);
    }
}

#[test]
fn uv_variant_corners_match_their_tables() {
    assert_eq!(uv_variant_corner(0, 0), (0, 0));
    assert_eq!(uv_variant_corner(0, 1), (1, 0));
    assert_eq!(uv_variant_corner(0, 2), (0, 1));
    assert_eq!(uv_variant_corner(0, 3), (1, 1));
    assert_eq!(uv_variant_corner(2, 0), (1, 1));
    assert_eq!(uv_variant_corner(3, 1), (0, 0));
}

#[test]
fn empty_chunk_meshes_to_nothing() {
    let reg = registry();
    let n = air_world(Chunk::homogeneous(BlockId(AIR)));
    let meshes = mesh_chunk(&reg, &n).unwrap();
    assert!(meshes.terrain.vertices.is_empty());
    assert!(meshes.terrain.indices.is_empty());
    assert!(meshes.liquid.vertices.is_empty());
    assert!(meshes.liquid.indices.is_empty());
}

#[test]
fn exposed_full_chunk_merges_each_face_whole() {
    // A solid chunk in open air merges each of its six faces into one
    // chunk-wide quad: six quads in all, nothing smaller.
    let reg = registry();
    let n = air_world(Chunk::homogeneous(BlockId(STONE)));
    let meshes = mesh_chunk(&reg, &n).unwrap();
    assert_eq!(meshes.terrain.vertices.len(), 24);
    assert_eq!(meshes.terrain.indices.len(), 36);
    let top: Vec<_> = meshes
        .terrain
        .vertices
        .iter()
        .filter(|v| v.norm_y == 1)
        .collect();
    assert_eq!(top.len(), 4);
    for v in &top {
        assert_eq!(v.pos_y, SIZE as u32);
        assert!(v.pos_x == 0 || v.pos_x == SIZE as u32);
        assert!(v.pos_z == 0 || v.pos_z == SIZE as u32);
    }
}
