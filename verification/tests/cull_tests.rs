use voxel_mesher::block::Side;
use voxel_mesher::chunk::Neighborhood;
use voxel_mesher::cull::{
    calculate_vertex_data, Block, BlockChunk, CullMesher, Precomputed,
};
use voxel_mesher::{SIZE, VOLUME};

fn at(x: usize, y: usize, z: usize) -> usize {
    x * SIZE * SIZE + y * SIZE + z
}

fn air_neighbors(center: BlockChunk) -> Neighborhood<BlockChunk> {
    Neighborhood {
        center,
        top: BlockChunk::homogeneous(Block::Air),
        bottom: BlockChunk::homogeneous(Block::Air),
        left: BlockChunk::homogeneous(Block::Air),
        right: BlockChunk::homogeneous(Block::Air),
        front: BlockChunk::homogeneous(Block::Air),
        back: BlockChunk::homogeneous(Block::Air),
    }
}

#[test]
fn palette_opacity_flags() {
    assert!(!Block::Air.properties().opaque);
    assert!(!Block::Water.properties().opaque);
    assert!(Block::Stone.properties().opaque);
    assert!(Block::Dirt.properties().opaque);
    assert!(Block::Grass.properties().opaque);
}

#[test]
fn grass_tile_varies_by_side() {
    let pre = |side: Side| Precomputed {
        side,
        face_offset: (0, 0),
        pos: (1, 2, 3),
        norm: (0, 1, 0),
        face: 1,
    };
    let top = calculate_vertex_data(Block::Grass, pre(Side::Top));
    assert_eq!((top.tile_u, top.tile_v), (0, 0));
    let bottom = calculate_vertex_data(Block::Grass, pre(Side::Bottom));
    assert_eq!((bottom.tile_u, bottom.tile_v), (2, 0));
    let side = calculate_vertex_data(Block::Grass, pre(Side::Left));
    assert_eq!((side.tile_u, side.tile_v), (0, 1));
    let stone = calculate_vertex_data(Block::Stone, pre(Side::Front));
    assert_eq!((stone.tile_u, stone.tile_v), (1, 0));
    assert_eq!((stone.pos_x, stone.pos_y, stone.pos_z), (1, 2, 3));
}

#[test]
fn block_neighborhood_get_wraps_one_axis() {
    let mut cells = vec![Block::Air; VOLUME];
    cells[at(7, 0, 7)] = Block::Dirt;
    let mut front_cells = vec![Block::Air; VOLUME];
    front_cells[at(7, 7, 0)] = Block::Grass;
    let mut n = air_neighbors(BlockChunk::new(cells));
    n.front = BlockChunk::new(front_cells);
    assert_eq!(n.get(7, 0, 7), Some(Block::Dirt));
    assert_eq!(n.get(7, 7, SIZE as i32), Some(Block::Grass));
    assert_eq!(n.get(-1, 7, 7), Some(Block::Air));
}

#[test]
fn lone_block_culls_to_six_faces() {
    let mut cells = vec![Block::Air; VOLUME];
    cells[at(4, 5, 6)] = Block::Stone;
    let n = air_neighbors(BlockChunk::new(cells));
    let mut mesher = CullMesher::new(
        n.center, n.top, n.bottom, n.left, n.right, n.front, n.back,
    );
    mesher.mesh();
    assert_eq!(mesher.vertices.len(), 24);
    assert_eq!(mesher.indices.len(), 36);
    assert_eq!(mesher.index, 24);
    for ix in &mesher.indices {
        assert!((*ix as usize) < mesher.vertices.len());
    }
}

#[test]
fn enclosed_world_culls_to_nothing() {
    let mesher_chunks = || BlockChunk::homogeneous(Block::Stone);
    let mut mesher = CullMesher::new(
        mesher_chunks(),
        mesher_chunks(),
        mesher_chunks(),
        mesher_chunks(),
        mesher_chunks(),
        mesher_chunks(),
        mesher_chunks(),
    );
    mesher.mesh();
    assert!(mesher.vertices.is_empty());
    assert!(mesher.indices.is_empty());
}

#[test]
fn buried_water_hides_the_floor_above_it() {
    // Water is not opaque, so the stone beside it still exposes a face.
    let mut cells = vec![Block::Air; VOLUME];
    cells[at(3, 3, 3)] = Block::Stone;
    cells[at(3, 4, 3)] = Block::Water;
    let n = air_neighbors(BlockChunk::new(cells));
    let mut mesher = CullMesher::new(
        n.center, n.top, n.bottom, n.left, n.right, n.front, n.back,
    );
    mesher.mesh();
    // The stone emits all six faces: water above does not occlude it.
    assert_eq!(mesher.vertices.len(), 24);
}
