//! The per-voxel face culler: the simple fallback mesher that emits one
//! quad for every exposed face of every opaque block, without merging or
//! corner shading.  It works on a fixed palette of block kinds rather than
//! the registry.

use crate::block::Side;
use crate::chunk::{chunk_index, out_of_chunk, Neighborhood};
use crate::{SIZE, VOLUME};
use vstd::prelude::*;

verus! {

/// The fixed block palette of the fallback mesher.
#[derive(Clone, Copy, PartialEq, Eq, Structural, Hash, Debug)]
pub enum Block {
    Air,
    Stone,
    Dirt,
    Grass,
    Water,
}

/// Render flags of a block kind.
#[derive(Clone, Copy, PartialEq, Eq, Structural, Debug)]
pub struct BlockProperties {
    pub opaque: bool,
}

impl Block {
    /// Whether the block kind occludes its neighbors: everything solid,
    /// so neither air nor water.
    pub open spec fn spec_opaque(self) -> bool {
        match self {
            Block::Air => false,
            Block::Water => false,
            _ => true,
        }
    }

    pub fn properties(self) -> (r: BlockProperties)
        ensures
            r.opaque == self.spec_opaque(),
    {
        match self {
            Block::Air => BlockProperties { opaque: false },
            Block::Water => BlockProperties { opaque: false },
            _ => BlockProperties { opaque: true },
        }
    }
}

/// A fixed-size cube of `SIZE³` palette blocks.
#[derive(Clone, Debug)]
pub struct BlockChunk {
    data: Vec<Block>,
}

impl View for BlockChunk {
    type V = Seq<Block>;

    closed spec fn view(&self) -> Seq<Block> {
        self.data@
    }
}

impl BlockChunk {
    pub open spec fn wf(&self) -> bool {
        self@.len() == VOLUME
    }

    /// The block stored at a cell, as a mathematical value.
    pub open spec fn spec_at(&self, x: int, y: int, z: int) -> Block {
        self@[chunk_index(x, y, z)]
    }

    /// Wraps a full voxel array, laid out x-major then y then z.
    pub fn new(data: Vec<Block>) -> (r: BlockChunk)
        requires
            data@.len() == VOLUME,
        ensures
            r.wf(),
            r@ == data@,
    {
        BlockChunk { data }
    }

    /// A uniform chunk holding the same block in every cell.
    pub fn homogeneous(b: Block) -> (r: BlockChunk)
        ensures
            r.wf(),
            forall|x: int, y: int, z: int|
                0 <= x < SIZE && 0 <= y < SIZE && 0 <= z < SIZE ==> r.spec_at(x, y, z) == b,
    {
        let mut data: Vec<Block> = Vec::new();
        let mut i: usize = 0;
        while i < VOLUME
            invariant
                i <= VOLUME,
                data@.len() == i,
                forall|j: int| 0 <= j < i ==> data@[j] == b,
            decreases VOLUME - i,
        {
            data.push(b);
            i = i + 1;
        }
        BlockChunk { data }
    }

    /// Reads one cell of the chunk.
    pub fn get(&self, x: usize, y: usize, z: usize) -> (r: Block)
        requires
            self.wf(),
            x < SIZE,
            y < SIZE,
            z < SIZE,
        ensures
            r == self.spec_at(x as int, y as int, z as int),
    {
        let i: usize = x * (SIZE * SIZE) + y * SIZE + z;
        self.data[i]
    }
}

impl Neighborhood<BlockChunk> {
    pub open spec fn wf(&self) -> bool {
        &&& self.center.wf()
        &&& self.top.wf()
        &&& self.bottom.wf()
        &&& self.left.wf()
        &&& self.right.wf()
        &&& self.front.wf()
        &&& self.back.wf()
    }

    /// The block a coordinate resolves to: the center chunk inside its
    /// bounds, or the matching neighbor's wrapped cell when exactly one
    /// axis is one cell out of range.
    pub open spec fn spec_sample(&self, x: int, y: int, z: int) -> Block {
        if 0 <= x < SIZE && 0 <= y < SIZE && 0 <= z < SIZE {
            self.center.spec_at(x, y, z)
        } else if x >= SIZE {
            self.right.spec_at(x - SIZE, y, z)
        } else if x < 0 {
            self.left.spec_at(x + SIZE, y, z)
        } else if y >= SIZE {
            self.top.spec_at(x, y - SIZE, z)
        } else if y < 0 {
            self.bottom.spec_at(x, y + SIZE, z)
        } else if z >= SIZE {
            self.front.spec_at(x, y, z - SIZE)
        } else {
            self.back.spec_at(x, y, z + SIZE)
        }
    }

    /// Resolves a coordinate at most one cell outside the center chunk to
    /// the chunk that stores it.  Coordinates further out than the
    /// one-cell halo, or out on more than one axis, are a caller contract
    /// breach and are excluded rather than silently wrapped around.
    pub fn get(&self, x: i32, y: i32, z: i32) -> (r: Option<Block>)
        requires
            self.wf(),
            -1 <= x <= SIZE,
            -1 <= y <= SIZE,
            -1 <= z <= SIZE,
            !(out_of_chunk(x as int) && out_of_chunk(y as int)),
            !(out_of_chunk(x as int) && out_of_chunk(z as int)),
            !(out_of_chunk(y as int) && out_of_chunk(z as int)),
        ensures
            r == Some(self.spec_sample(x as int, y as int, z as int)),
    {
        let s: i32 = SIZE as i32;
        if 0 <= x && x < s && 0 <= y && y < s && 0 <= z && z < s {
            Some(self.center.get(x as usize, y as usize, z as usize))
        } else if x >= s {
            Some(self.right.get((x - s) as usize, y as usize, z as usize))
        } else if x < 0 {
            Some(self.left.get((x + s) as usize, y as usize, z as usize))
        } else if y >= s {
            Some(self.top.get(x as usize, (y - s) as usize, z as usize))
        } else if y < 0 {
            Some(self.bottom.get(x as usize, (y + s) as usize, z as usize))
        } else if z >= s {
            Some(self.front.get(x as usize, y as usize, (z - s) as usize))
        } else {
            Some(self.back.get(x as usize, y as usize, (z + s) as usize))
        }
    }
}

/// One vertex of the fallback mesher: position, normal, a face-group tag,
/// a texture tile of the atlas, and the in-face UV corner.
#[derive(Clone, Copy, PartialEq, Eq, Structural, Hash, Debug)]
pub struct BlockVertex {
    pub pos_x: u32,
    pub pos_y: u32,
    pub pos_z: u32,
    pub norm_x: i32,
    pub norm_y: i32,
    pub norm_z: i32,
    pub face: i32,
    pub tile_u: u8,
    pub tile_v: u8,
    pub uv_u: u8,
    pub uv_v: u8,
}

/// What a vertex inherits from its face before the block kind is applied.
#[derive(Clone, Copy, PartialEq, Eq, Debug)]
pub struct Precomputed {
    pub side: Side,
    pub face_offset: (u8, u8),
    pub pos: (u32, u32, u32),
    pub norm: (i32, i32, i32),
    pub face: i32,
}

/// The texture-atlas tile of a block kind on a side.  Grass alone varies
/// by side: its top, its dirt bottom, and its own side tile.
pub open spec fn spec_tile(block: Block, side: Side) -> (u8, u8) {
    match block {
        Block::Air => (0u8, 0u8),
        Block::Stone => (1u8, 0u8),
        Block::Dirt => (2u8, 0u8),
        Block::Grass => match side {
            Side::Top => (0u8, 0u8),
            Side::Bottom => (2u8, 0u8),
            _ => (0u8, 1u8),
        },
        Block::Water => (1u8, 0u8),
    }
}

/// Builds one vertex from its face data and the block kind's tile.
pub fn calculate_vertex_data(block: Block, pre: Precomputed) -> (r: BlockVertex)
    ensures
        r == (BlockVertex {
            pos_x: pre.pos.0,
            pos_y: pre.pos.1,
            pos_z: pre.pos.2,
            norm_x: pre.norm.0,
            norm_y: pre.norm.1,
            norm_z: pre.norm.2,
            face: pre.face,
            tile_u: spec_tile(block, pre.side).0,
            tile_v: spec_tile(block, pre.side).1,
            uv_u: pre.face_offset.0,
            uv_v: pre.face_offset.1,
        }),
{
    let tile: (u8, u8) = match block {
        Block::Air => (0, 0),
        Block::Stone => (1, 0),
        Block::Dirt => (2, 0),
        Block::Grass => match pre.side {
            Side::Top => (0, 0),
            Side::Bottom => (2, 0),
            _ => (0, 1),
        },
        Block::Water => (1, 0),
    };
    BlockVertex {
        pos_x: pre.pos.0,
        pos_y: pre.pos.1,
        pos_z: pre.pos.2,
        norm_x: pre.norm.0,
        norm_y: pre.norm.1,
        norm_z: pre.norm.2,
        face: pre.face,
        tile_u: tile.0,
        tile_v: tile.1,
        uv_u: pre.face_offset.0,
        uv_v: pre.face_offset.1,
    }
}

} // verus!

verus! {

/// The mathematical contents of the fallback mesher's buffers.
pub ghost struct CullState {
    pub verts: Seq<BlockVertex>,
    pub inds: Seq<u32>,
}

/// One finished vertex of a face, before any block-specific tile choice is
/// folded in.
pub open spec fn mk_vertex(
    voxel: Block,
    side: Side,
    px: int,
    py: int,
    pz: int,
    ou: u8,
    ov: u8,
) -> BlockVertex {
    let n = side.spec_normal();
    BlockVertex {
        pos_x: px as u32,
        pos_y: py as u32,
        pos_z: pz as u32,
        norm_x: n.0 as i32,
        norm_y: n.1 as i32,
        norm_z: n.2 as i32,
        face: spec_face_group(side),
        tile_u: spec_tile(voxel, side).0,
        tile_v: spec_tile(voxel, side).1,
        uv_u: ou,
        uv_v: ov,
    }
}

/// The face-group tag a side renders with: vertical faces, depth faces and
/// lateral faces each share one group.
pub open spec fn spec_face_group(side: Side) -> i32 {
    match side {
        Side::Top => 1,
        Side::Bottom => 1,
        Side::Front => 0,
        Side::Back => 0,
        Side::Left => 2,
        Side::Right => 2,
    }
}

/// The four vertices of one exposed face of the cell at `(x, y, z)`.
pub open spec fn spec_face_vertices(side: Side, x: int, y: int, z: int, voxel: Block) -> Seq<
    BlockVertex,
> {
    match side {
        Side::Top => seq![
            mk_vertex(voxel, side, x, y + 1, z, 0, 1),
            mk_vertex(voxel, side, x + 1, y + 1, z, 1, 1),
            mk_vertex(voxel, side, x, y + 1, z + 1, 0, 0),
            mk_vertex(voxel, side, x + 1, y + 1, z + 1, 1, 0),
        ],
        Side::Bottom => seq![
            mk_vertex(voxel, side, x, y, z, 0, 1),
            mk_vertex(voxel, side, x + 1, y, z, 1, 1),
            mk_vertex(voxel, side, x, y, z + 1, 0, 0),
            mk_vertex(voxel, side, x + 1, y, z + 1, 1, 0),
        ],
        Side::Front => seq![
            mk_vertex(voxel, side, x, y + 1, z + 1, 0, 0),
            mk_vertex(voxel, side, x + 1, y + 1, z + 1, 1, 0),
            mk_vertex(voxel, side, x, y, z + 1, 0, 1),
            mk_vertex(voxel, side, x + 1, y, z + 1, 1, 1),
        ],
        Side::Back => seq![
            mk_vertex(voxel, side, x, y + 1, z, 0, 0),
            mk_vertex(voxel, side, x + 1, y + 1, z, 1, 0),
            mk_vertex(voxel, side, x, y, z, 0, 1),
            mk_vertex(voxel, side, x + 1, y, z, 1, 1),
        ],
        Side::Left => seq![
            mk_vertex(voxel, side, x, y + 1, z, 0, 0),
            mk_vertex(voxel, side, x, y + 1, z + 1, 1, 0),
            mk_vertex(voxel, side, x, y, z, 0, 1),
            mk_vertex(voxel, side, x, y, z + 1, 1, 1),
        ],
        Side::Right => seq![
            mk_vertex(voxel, side, x + 1, y + 1, z, 0, 0),
            mk_vertex(voxel, side, x + 1, y + 1, z + 1, 1, 0),
            mk_vertex(voxel, side, x + 1, y, z, 0, 1),
            mk_vertex(voxel, side, x + 1, y, z + 1, 1, 1),
        ],
    }
}

/// The six indices of one face's two triangles: sides that wind one way
/// share one pattern, the opposite sides the mirrored one.
pub open spec fn spec_face_indices(side: Side) -> Seq<u32> {
    match side {
        Side::Top => seq![0u32, 1u32, 2u32, 3u32, 2u32, 1u32],
        Side::Front => seq![0u32, 1u32, 2u32, 3u32, 2u32, 1u32],
        Side::Left => seq![0u32, 1u32, 2u32, 3u32, 2u32, 1u32],
        Side::Bottom => seq![0u32, 2u32, 1u32, 3u32, 1u32, 2u32],
        Side::Back => seq![0u32, 2u32, 1u32, 3u32, 1u32, 2u32],
        Side::Right => seq![0u32, 2u32, 1u32, 3u32, 1u32, 2u32],
    }
}

/// A face's six index entries, rebased onto its four vertices.
pub open spec fn spec_face_offset_indices(side: Side, base: u32) -> Seq<u32> {
    Seq::new(6, |i: int| (spec_face_indices(side)[i] + base) as u32)
}

/// What emitting one face does to the buffers.
pub open spec fn spec_add_face(
    s: CullState,
    side: Side,
    x: int,
    y: int,
    z: int,
    voxel: Block,
) -> CullState {
    CullState {
        verts: s.verts + spec_face_vertices(side, x, y, z, voxel),
        inds: s.inds + spec_face_offset_indices(side, s.verts.len() as u32),
    }
}

/// Whether the cell at a coordinate leaves its neighbor's face exposed:
/// anything not opaque does.
pub open spec fn spec_needs(n: Neighborhood<BlockChunk>, x: int, y: int, z: int) -> bool {
    !n.spec_sample(x, y, z).spec_opaque()
}

/// What one cell contributes: nothing unless it is opaque, else one face
/// toward each non-opaque neighbor, in the fixed order front, back, top,
/// bottom, right, left.
pub open spec fn spec_cull_cell(
    s: CullState,
    n: Neighborhood<BlockChunk>,
    x: int,
    y: int,
    z: int,
) -> CullState {
    let b = n.center.spec_at(x, y, z);
    if !b.spec_opaque() {
        s
    } else {
        let s1 = if spec_needs(n, x, y, z + 1) {
            spec_add_face(s, Side::Front, x, y, z, b)
        } else {
            s
        };
        let s2 = if spec_needs(n, x, y, z - 1) {
            spec_add_face(s1, Side::Back, x, y, z, b)
        } else {
            s1
        };
        let s3 = if spec_needs(n, x, y + 1, z) {
            spec_add_face(s2, Side::Top, x, y, z, b)
        } else {
            s2
        };
        let s4 = if spec_needs(n, x, y - 1, z) {
            spec_add_face(s3, Side::Bottom, x, y, z, b)
        } else {
            s3
        };
        let s5 = if spec_needs(n, x + 1, y, z) {
            spec_add_face(s4, Side::Right, x, y, z, b)
        } else {
            s4
        };
        if spec_needs(n, x - 1, y, z) {
            spec_add_face(s5, Side::Left, x, y, z, b)
        } else {
            s5
        }
    }
}

/// The buffers after culling every cell from `(x, y, z)` onward in
/// x-major, then y, then z order.
pub open spec fn spec_cull_from(
    s: CullState,
    n: Neighborhood<BlockChunk>,
    x: int,
    y: int,
    z: int,
) -> CullState
    decreases SIZE - x, SIZE - y, SIZE - z,
{
    if x < 0 || y < 0 || z < 0 || x >= SIZE {
        s
    } else if y >= SIZE {
        spec_cull_from(s, n, x + 1, 0, 0)
    } else if z >= SIZE {
        spec_cull_from(s, n, x, y + 1, 0)
    } else {
        spec_cull_from(spec_cull_cell(s, n, x, y, z), n, x, y, z + 1)
    }
}

/// The whole fallback mesh of a neighborhood, over empty buffers.
pub open spec fn spec_cull_mesh(n: Neighborhood<BlockChunk>) -> CullState {
    spec_cull_from(CullState { verts: Seq::empty(), inds: Seq::empty() }, n, 0, 0, 0)
}

/// The per-voxel fallback mesher: one quad per exposed face of each opaque
/// cell, culled against the six neighbor chunks, with no merging.
pub struct CullMesher {
    pub index: u32,
    pub neighbors: Neighborhood<BlockChunk>,
    pub vertices: Vec<BlockVertex>,
    pub indices: Vec<u32>,
}

impl CullMesher {
    /// The mesher's running invariant: the next-vertex counter tracks the
    /// vertex buffer.
    pub open spec fn wf(&self) -> bool {
        self.index as int == self.vertices@.len()
    }

    /// The buffers as one mathematical value.
    pub open spec fn state(&self) -> CullState {
        CullState { verts: self.vertices@, inds: self.indices@ }
    }

    /// A fresh mesher over a chunk and its six neighbors.
    pub fn new(
        chunk: BlockChunk,
        top: BlockChunk,
        bottom: BlockChunk,
        left: BlockChunk,
        right: BlockChunk,
        front: BlockChunk,
        back: BlockChunk,
    ) -> (r: CullMesher)
        requires
            chunk.wf(),
            top.wf(),
            bottom.wf(),
            left.wf(),
            right.wf(),
            front.wf(),
            back.wf(),
        ensures
            r.wf(),
            r.neighbors.wf(),
            r.neighbors.center == chunk,
            r.neighbors.top == top,
            r.neighbors.bottom == bottom,
            r.neighbors.left == left,
            r.neighbors.right == right,
            r.neighbors.front == front,
            r.neighbors.back == back,
            r.state() == (CullState { verts: Seq::<BlockVertex>::empty(), inds: Seq::<u32>::empty() }),
    {
        CullMesher {
            index: 0,
            vertices: Vec::new(),
            indices: Vec::new(),
            neighbors: Neighborhood { center: chunk, top, bottom, left, right, front, back },
        }
    }

    /// Whether a neighbor coordinate leaves the face toward it exposed.
    pub fn needs_face(&self, x: i32, y: i32, z: i32) -> (r: bool)
        requires
            self.neighbors.wf(),
            -1 <= x <= SIZE,
            -1 <= y <= SIZE,
            -1 <= z <= SIZE,
            !(out_of_chunk(x as int) && out_of_chunk(y as int)),
            !(out_of_chunk(x as int) && out_of_chunk(z as int)),
            !(out_of_chunk(y as int) && out_of_chunk(z as int)),
        ensures
            r == spec_needs(self.neighbors, x as int, y as int, z as int),
    {
        match self.neighbors.get(x, y, z) {
            Some(voxel) => !voxel.properties().opaque,
            None => false,
        }
    }

    /// Pushes one vertex of the face being emitted.
    fn push_vertex(
        &mut self,
        voxel: Block,
        side: Side,
        px: usize,
        py: usize,
        pz: usize,
        ou: u8,
        ov: u8,
    )
        requires
            px <= SIZE,
            py <= SIZE,
            pz <= SIZE,
        ensures
            final(self).vertices@ == old(self).vertices@.push(
                mk_vertex(voxel, side, px as int, py as int, pz as int, ou, ov),
            ),
            final(self).indices == old(self).indices,
            final(self).index == old(self).index,
            final(self).neighbors == old(self).neighbors,
    {
        let n: (i32, i32, i32) = side.normal();
        let f: i32 = match side {
            Side::Top => 1,
            Side::Bottom => 1,
            Side::Front => 0,
            Side::Back => 0,
            Side::Left => 2,
            Side::Right => 2,
        };
        let pre = Precomputed {
            side,
            face_offset: (ou, ov),
            pos: (px as u32, py as u32, pz as u32),
            norm: n,
            face: f,
        };
        let v: BlockVertex = calculate_vertex_data(voxel, pre);
        self.vertices.push(v);
    }

    /// Emits one exposed face of the cell at `(x, y, z)`: six rebased
    /// indices and the four vertices of the side's fixed table.
    pub fn add_face(&mut self, side: Side, x: usize, y: usize, z: usize, voxel: Block)
        requires
            old(self).wf(),
            x < SIZE,
            y < SIZE,
            z < SIZE,
            old(self).vertices@.len() + 4 <= u32::MAX,
        ensures
            final(self).wf(),
            final(self).neighbors == old(self).neighbors,
            final(self).state() == spec_add_face(
                old(self).state(),
                side,
                x as int,
                y as int,
                z as int,
                voxel,
            ),
    {
        let base: u32 = self.index;
        let ghost old_inds = self.indices@;
        match side {
            Side::Top | Side::Front | Side::Left => {
                self.indices.push(base + 0);
                self.indices.push(base + 1);
                self.indices.push(base + 2);
                self.indices.push(base + 3);
                self.indices.push(base + 2);
                self.indices.push(base + 1);
            },
            Side::Bottom | Side::Back | Side::Right => {
                self.indices.push(base + 0);
                self.indices.push(base + 2);
                self.indices.push(base + 1);
                self.indices.push(base + 3);
                self.indices.push(base + 1);
                self.indices.push(base + 2);
            },
        }
        proof {
            assert(self.indices@ =~= old_inds + spec_face_offset_indices(side, base));
        }
        let ghost old_verts = self.vertices@;
        match side {
            Side::Top => {
                self.push_vertex(voxel, side, x, y + 1, z, 0, 1);
                self.push_vertex(voxel, side, x + 1, y + 1, z, 1, 1);
                self.push_vertex(voxel, side, x, y + 1, z + 1, 0, 0);
                self.push_vertex(voxel, side, x + 1, y + 1, z + 1, 1, 0);
            },
            Side::Bottom => {
                self.push_vertex(voxel, side, x, y, z, 0, 1);
                self.push_vertex(voxel, side, x + 1, y, z, 1, 1);
                self.push_vertex(voxel, side, x, y, z + 1, 0, 0);
                self.push_vertex(voxel, side, x + 1, y, z + 1, 1, 0);
            },
            Side::Front => {
                self.push_vertex(voxel, side, x, y + 1, z + 1, 0, 0);
                self.push_vertex(voxel, side, x + 1, y + 1, z + 1, 1, 0);
                self.push_vertex(voxel, side, x, y, z + 1, 0, 1);
                self.push_vertex(voxel, side, x + 1, y, z + 1, 1, 1);
            },
            Side::Back => {
                self.push_vertex(voxel, side, x, y + 1, z, 0, 0);
                self.push_vertex(voxel, side, x + 1, y + 1, z, 1, 0);
                self.push_vertex(voxel, side, x, y, z, 0, 1);
                self.push_vertex(voxel, side, x + 1, y, z, 1, 1);
            },
            Side::Left => {
                self.push_vertex(voxel, side, x, y + 1, z, 0, 0);
                self.push_vertex(voxel, side, x, y + 1, z + 1, 1, 0);
                self.push_vertex(voxel, side, x, y, z, 0, 1);
                self.push_vertex(voxel, side, x, y, z + 1, 1, 1);
            },
            Side::Right => {
                self.push_vertex(voxel, side, x + 1, y + 1, z, 0, 0);
                self.push_vertex(voxel, side, x + 1, y + 1, z + 1, 1, 0);
                self.push_vertex(voxel, side, x + 1, y, z, 0, 1);
                self.push_vertex(voxel, side, x + 1, y, z + 1, 1, 1);
            },
        }
        proof {
            assert(self.vertices@ =~= old_verts + spec_face_vertices(
                side,
                x as int,
                y as int,
                z as int,
                voxel,
            ));
        }
        self.index = base + 4;
    }

    /// Culls the whole chunk: every opaque cell emits one face toward each
    /// of its non-opaque neighbors, in a fixed deterministic order.
    #[verifier::rlimit(100)]
    #[verifier::loop_isolation(false)]
    pub fn mesh(&mut self)
        requires
            old(self).wf(),
            old(self).neighbors.wf(),
            old(self).vertices@.len() + 24 * VOLUME <= u32::MAX,
        ensures
            final(self).wf(),
            final(self).neighbors == old(self).neighbors,
            final(self).state() == spec_cull_from(
                old(self).state(),
                old(self).neighbors,
                0,
                0,
                0,
            ),
    {
        let ghost s0 = self.state();
        let ghost n0 = self.neighbors;
        let ghost e = old(self).vertices@.len() as int;
        let mut i: usize = 0;
        while i < SIZE
            invariant
                i <= SIZE,
                self.wf(),
                self.neighbors == n0,
                self.vertices@.len() <= e + 24 * chunk_index(i as int, 0, 0),
                spec_cull_from(s0, n0, 0, 0, 0) == spec_cull_from(
                    self.state(),
                    n0,
                    i as int,
                    0,
                    0,
                ),
            decreases SIZE - i,
        {
            let mut j: usize = 0;
            while j < SIZE
                invariant
                    i < SIZE,
                    j <= SIZE,
                    self.wf(),
                    self.neighbors == n0,
                    self.vertices@.len() <= e + 24 * chunk_index(i as int, j as int, 0),
                    spec_cull_from(s0, n0, 0, 0, 0) == spec_cull_from(
                        self.state(),
                        n0,
                        i as int,
                        j as int,
                        0,
                    ),
                decreases SIZE - j,
            {
                let mut k: usize = 0;
                while k < SIZE
                    invariant
                        i < SIZE,
                        j < SIZE,
                        k <= SIZE,
                        self.wf(),
                        self.neighbors == n0,
                        self.vertices@.len() <= e + 24 * chunk_index(i as int, j as int, k as int),
                        spec_cull_from(s0, n0, 0, 0, 0) == spec_cull_from(
                            self.state(),
                            n0,
                            i as int,
                            j as int,
                            k as int,
                        ),
                    decreases SIZE - k,
                {
                    proof {
                        assert(chunk_index(i as int, j as int, k as int) < VOLUME)
                            by (nonlinear_arith)
                            requires
                                0 <= i < SIZE,
                                0 <= j < SIZE,
                                0 <= k < SIZE,
                                VOLUME == SIZE * SIZE * SIZE,
                        ;
                        assert(chunk_index(i as int, j as int, k as int) >= 0)
                            by (nonlinear_arith)
                            requires
                                0 <= i,
                                0 <= j,
                                0 <= k,
                        ;
                    }
                    let xi: i32 = i as i32;
                    let yj: i32 = j as i32;
                    let zk: i32 = k as i32;
                    let ghost pre_cell = self.state();
                    let block: Block = self.neighbors.center.get(i, j, k);
                    if block.properties().opaque {
                        if self.needs_face(xi, yj, zk + 1) {
                            self.add_face(Side::Front, i, j, k, block);
                        }
                        if self.needs_face(xi, yj, zk - 1) {
                            self.add_face(Side::Back, i, j, k, block);
                        }
                        if self.needs_face(xi, yj + 1, zk) {
                            self.add_face(Side::Top, i, j, k, block);
                        }
                        if self.needs_face(xi, yj - 1, zk) {
                            self.add_face(Side::Bottom, i, j, k, block);
                        }
                        if self.needs_face(xi + 1, yj, zk) {
                            self.add_face(Side::Right, i, j, k, block);
                        }
                        if self.needs_face(xi - 1, yj, zk) {
                            self.add_face(Side::Left, i, j, k, block);
                        }
                    }
                    proof {
                        assert(self.state() == spec_cull_cell(
                            pre_cell,
                            n0,
                            i as int,
                            j as int,
                            k as int,
                        ));
                    }
                    k = k + 1;
                }
                proof {
                    assert(chunk_index(i as int, j as int, SIZE as int) == chunk_index(
                        i as int,
                        j as int + 1,
                        0,
                    )) by (nonlinear_arith);
                }
                j = j + 1;
            }
            proof {
                assert(chunk_index(i as int, SIZE as int, 0) == chunk_index(i as int + 1, 0, 0))
                    by (nonlinear_arith);
            }
            i = i + 1;
        }
    }
}

} // verus!
