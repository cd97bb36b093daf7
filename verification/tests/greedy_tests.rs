use voxel_mesher::block::Side;
use voxel_mesher::cull::{Block, BlockChunk};
use voxel_mesher::greedy::GreedyMesher;
use voxel_mesher::{SIZE, VOLUME};

fn at(x: usize, y: usize, z: usize) -> usize {
    x * SIZE * SIZE + y * SIZE + z
}

fn mesher_over(center: BlockChunk) -> GreedyMesher {
    GreedyMesher::new(
        center,
        BlockChunk::homogeneous(Block::Air),
        BlockChunk::homogeneous(Block::Air),
        BlockChunk::homogeneous(Block::Air),
        BlockChunk::homogeneous(Block::Air),
        BlockChunk::homogeneous(Block::Air),
        BlockChunk::homogeneous(Block::Air),
    )
}

#[test]
fn greedy_single_block_emits_six_quads() {
    let mut cells = vec![Block::Air; VOLUME];
    cells[at(5, 6, 7)] = Block::Stone;
    let mut mesher = mesher_over(BlockChunk::new(cells));
    mesher.mesh();
    assert_eq!(mesher.vertices.len(), 24);
    assert_eq!(mesher.indices.len(), 36);
    assert_eq!(mesher.index, 24);
    for ix in &mesher.indices {
        assert!((*ix as usize) < mesher.vertices.len());
    }
    for v in &mesher.vertices {
        assert_eq!((v.tile_u, v.tile_v), (1, 0));
    }
}

#[test]
fn greedy_slab_merges_its_top_faces() {
    // A 2x2x1 slab of stone merges its four top faces into one quad.
    let mut cells = vec![Block::Air; VOLUME];
    for x in 0..2 {
        for z in 0..2 {
            cells[at(x, 0, z)] = Block::Stone;
        }
    }
    let mut mesher = mesher_over(BlockChunk::new(cells));
    mesher.mesh();
    let top: Vec<_> = mesher.vertices.iter().filter(|v| v.norm_y == 1).collect();
    assert_eq!(top.len(), 4);
    let pos: Vec<_> = top.iter().map(|v| (v.pos_x, v.pos_y, v.pos_z)).collect();
    assert_eq!(pos, vec![(0, 1, 0), (2, 1, 0), (0, 1, 2), (2, 1, 2)]);
}

#[test]
fn greedy_enclosed_world_emits_nothing() {
    let stone = || BlockChunk::homogeneous(Block::Stone);
    let mut mesher = GreedyMesher::new(
        stone(),
        stone(),
        stone(),
        stone(),
        stone(),
        stone(),
        stone(),
    );
    mesher.mesh();
    assert!(mesher.vertices.is_empty());
    assert!(mesher.indices.is_empty());
}

#[test]
fn mask_sweep_picks_expands_and_clears() {
    let mut cells = vec![Block::Air; VOLUME];
    for x in 0..2 {
        for z in 0..2 {
            cells[at(x, 0, z)] = Block::Stone;
        }
    }
    let mut mesher = mesher_over(BlockChunk::new(cells));
    // The fresh mesher sweeps the Top direction first; fill layer 0.
    mesher.fill_mask(0);
    assert!(mesher.get_mask(0, 0));
    assert!(mesher.get_mask(1, 1));
    assert!(!mesher.get_mask(2, 0));
    // Out-of-range coordinates read as unset.
    assert!(!mesher.get_mask(-1, 0));
    assert!(!mesher.get_mask(0, SIZE as i32));
    let seed = mesher.pick_pos().unwrap();
    assert_eq!(seed, (0, 0));
    let quad = mesher.expand_right(seed.0, seed.1, 0);
    assert_eq!((quad.min_u, quad.max_u, quad.min_v, quad.max_v), (0, 1, 0, 0));
    let quad = mesher.expand_down(quad, 0);
    assert_eq!((quad.min_u, quad.max_u, quad.min_v, quad.max_v), (0, 1, 0, 1));
    mesher.mark_visited(quad);
    assert_eq!(mesher.pick_pos(), None);
}

#[test]
fn greedy_world_space_follows_the_dimension() {
    let mesher = mesher_over(BlockChunk::homogeneous(Block::Air));
    // The fresh mesher faces Top: slice (u, v) at depth `layer` is the
    // cell (u, layer, v), and the sweep steps along +y.
    assert_eq!(mesher.to_world_space(3, 5, 7), (3, 7, 5));
    assert_eq!(mesher.get_offset_vec(), (0, 1, 0));
    assert_eq!(mesher.get_center(3, 5, 7), Some(Block::Air));
    assert_eq!(mesher.get_center(SIZE as i32, 5, 7), None);
}
