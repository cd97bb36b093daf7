//! The mask-based greedy mesher over the fixed block palette: a visibility
//! mask per layer, a pick-and-expand sweep that grows each seed cell into
//! a maximal rectangle, and quad emission into one vertex buffer.

use crate::block::Side;
use crate::chunk::Neighborhood;
use crate::cull::{
    calculate_vertex_data, mk_vertex, spec_face_offset_indices, Block, BlockChunk, BlockVertex,
    CullState, Precomputed,
};
use crate::mesher::{idx, idx_spec, spec_slice_coord};
use crate::{AREA, SIZE};
use vstd::prelude::*;

verus! {

/// An inclusive in-plane rectangle of slice cells.
#[derive(Clone, Copy, PartialEq, Eq, Structural, Hash, Debug)]
pub struct Quad {
    pub min_u: usize,
    pub min_v: usize,
    pub max_u: usize,
    pub max_v: usize,
}

/// The mask entry for an in-plane cell; out-of-range cells read as unset.
pub open spec fn spec_mask_at(m: Seq<bool>, u: int, v: int) -> bool {
    if 0 <= u < SIZE && 0 <= v < SIZE {
        m[idx_spec(u, v)]
    } else {
        false
    }
}

/// The center-chunk block a slice position of a directional pass holds.
pub open spec fn spec_center_at(
    nb: Neighborhood<BlockChunk>,
    dim: Side,
    layer: int,
    u: int,
    v: int,
) -> Block {
    let c = spec_slice_coord(dim, layer, u, v);
    nb.center.spec_at(c.0, c.1, c.2)
}

/// Whether a slice cell's face is visible: the cell is opaque and the cell
/// one step along the pass direction is not.
pub open spec fn spec_mask_val(
    nb: Neighborhood<BlockChunk>,
    dim: Side,
    layer: int,
    u: int,
    v: int,
) -> bool {
    let c = spec_slice_coord(dim, layer, u, v);
    let n = dim.spec_normal();
    nb.center.spec_at(c.0, c.1, c.2).spec_opaque() && !nb.spec_sample(
        c.0 + n.0,
        c.1 + n.1,
        c.2 + n.2,
    ).spec_opaque()
}

/// The whole visibility mask of one layer, in linear layout.
pub open spec fn spec_mask0(nb: Neighborhood<BlockChunk>, dim: Side, layer: int) -> Seq<bool> {
    Seq::new(
        AREA as nat,
        |i: int| spec_mask_val(nb, dim, layer, i / (SIZE as int), i % (SIZE as int)),
    )
}

/// Greedy width growth along u: how wide the run of cells equal to the
/// seed block with a set mask reaches, starting at width `w`.
pub open spec fn spec_gw(
    nb: Neighborhood<BlockChunk>,
    dim: Side,
    m: Seq<bool>,
    start: Block,
    layer: int,
    u: int,
    v: int,
    w: int,
) -> int
    decreases SIZE - (u + w),
{
    if 0 <= u && 0 <= w && u + w < SIZE && spec_center_at(nb, dim, layer, u + w, v) == start
        && spec_mask_at(m, u + w, v) {
        spec_gw(nb, dim, m, start, layer, u, v, w + 1)
    } else {
        w
    }
}

/// Whether the `w` cells starting at column `u` of row `vrow` all hold the
/// seed block with a set mask.
pub open spec fn spec_row_ok(
    nb: Neighborhood<BlockChunk>,
    dim: Side,
    m: Seq<bool>,
    start: Block,
    layer: int,
    u: int,
    w: int,
    vrow: int,
) -> bool {
    forall|d: int|
        0 <= d < w ==> #[trigger] spec_center_at(nb, dim, layer, u + d, vrow) == start
            && spec_mask_at(m, u + d, vrow)
}

/// Greedy height growth along v: how many whole rows the quad reaches,
/// starting at height `h`.
pub open spec fn spec_gh(
    nb: Neighborhood<BlockChunk>,
    dim: Side,
    m: Seq<bool>,
    start: Block,
    layer: int,
    u: int,
    v: int,
    w: int,
    h: int,
) -> int
    decreases SIZE - (v + h),
{
    if 0 <= v && 0 <= h && v + h < SIZE && spec_row_ok(nb, dim, m, start, layer, u, w, v + h) {
        spec_gh(nb, dim, m, start, layer, u, v, w, h + 1)
    } else {
        h
    }
}

/// The mask with every cell of the `w` by `h` rectangle at `(u, v)`
/// cleared.
pub open spec fn spec_clear_rect(m: Seq<bool>, u: int, v: int, w: int, h: int) -> Seq<bool> {
    Seq::new(
        m.len(),
        |i: int|
            if u <= i / (SIZE as int) < u + w && v <= i % (SIZE as int) < v + h {
                false
            } else {
                m[i]
            },
    )
}

/// The four vertices of a merged quad on the pass direction, with the
/// layer's two bounding planes and the quad's exclusive extents.
pub open spec fn spec_quad_vertices(
    dim: Side,
    voxel: Block,
    layer: int,
    u: int,
    v: int,
    w: int,
    h: int,
) -> Seq<BlockVertex> {
    let top = layer + 1;
    let bot = layer;
    let minu = u;
    let minv = v;
    let maxu = u + w;
    let maxv = v + h;
    let lu = w as u8;
    let lv = h as u8;
    match dim {
        Side::Top => seq![
            mk_vertex(voxel, dim, minu, top, minv, 0, lv),
            mk_vertex(voxel, dim, maxu, top, minv, lu, lv),
            mk_vertex(voxel, dim, minu, top, maxv, 0, 0),
            mk_vertex(voxel, dim, maxu, top, maxv, lu, 0),
        ],
        Side::Bottom => seq![
            mk_vertex(voxel, dim, minu, bot, minv, 0, lv),
            mk_vertex(voxel, dim, maxu, bot, minv, lu, lv),
            mk_vertex(voxel, dim, minu, bot, maxv, 0, 0),
            mk_vertex(voxel, dim, maxu, bot, maxv, lu, 0),
        ],
        Side::Front => seq![
            mk_vertex(voxel, dim, minu, maxv, top, 0, 0),
            mk_vertex(voxel, dim, maxu, maxv, top, lu, 0),
            mk_vertex(voxel, dim, minu, minv, top, 0, lv),
            mk_vertex(voxel, dim, maxu, minv, top, lu, lv),
        ],
        Side::Back => seq![
            mk_vertex(voxel, dim, minu, maxv, bot, 0, 0),
            mk_vertex(voxel, dim, maxu, maxv, bot, lu, 0),
            mk_vertex(voxel, dim, minu, minv, bot, 0, lv),
            mk_vertex(voxel, dim, maxu, minv, bot, lu, lv),
        ],
        Side::Left => seq![
            mk_vertex(voxel, dim, bot, maxu, minv, 0, 0),
            mk_vertex(voxel, dim, bot, maxu, maxv, lv, 0),
            mk_vertex(voxel, dim, bot, minu, minv, 0, lu),
            mk_vertex(voxel, dim, bot, minu, maxv, lv, lu),
        ],
        Side::Right => seq![
            mk_vertex(voxel, dim, top, maxu, minv, 0, 0),
            mk_vertex(voxel, dim, top, maxu, maxv, lv, 0),
            mk_vertex(voxel, dim, top, minu, minv, 0, lu),
            mk_vertex(voxel, dim, top, minu, maxv, lv, lu),
        ],
    }
}

/// What emitting one merged quad does to the buffers.
pub open spec fn spec_add_quad(
    s: CullState,
    dim: Side,
    voxel: Block,
    layer: int,
    u: int,
    v: int,
    w: int,
    h: int,
) -> CullState {
    CullState {
        verts: s.verts + spec_quad_vertices(dim, voxel, layer, u, v, w, h),
        inds: s.inds + spec_face_offset_indices(dim, s.verts.len() as u32),
    }
}

} // verus!

use crate::mesher::{lemma_idx_bounds, lemma_idx_div, scanned};
use vstd::prelude::*;

verus! {

/// Reading one in-plane cell of a cleared-rectangle mask.
proof fn lemma_clear_rect_at(m: Seq<bool>, u: int, v: int, w: int, h: int, a: int, b: int)
    requires
        m.len() == AREA,
        0 <= a < SIZE,
        0 <= b < SIZE,
    ensures
        spec_clear_rect(m, u, v, w, h)[idx_spec(a, b)] == if u <= a < u + w && v <= b < v + h {
            false
        } else {
            m[idx_spec(a, b)]
        },
{
    lemma_idx_bounds(a, b);
    lemma_idx_div(a, b);
}

/// Two masks equal on every in-plane cell are equal.
proof fn lemma_mask_eq_by_cells(m1: Seq<bool>, m2: Seq<bool>)
    requires
        m1.len() == AREA,
        m2.len() == AREA,
        forall|a: int, b: int|
            0 <= a < SIZE && 0 <= b < SIZE ==> m1[idx_spec(a, b)] == #[trigger] m2[idx_spec(a, b)],
    ensures
        m1 == m2,
{
    assert forall|i: int| 0 <= i < AREA implies m1[i] == m2[i] by {
        let a = i / (SIZE as int);
        let b = i % (SIZE as int);
        vstd::arithmetic::div_mod::lemma_fundamental_div_mod(i, SIZE as int);
        vstd::arithmetic::div_mod::lemma_mod_bound(i, SIZE as int);
        assert(0 <= a < SIZE) by (nonlinear_arith)
            requires
                0 <= i < AREA,
                AREA == SIZE * SIZE,
                i == (SIZE as int) * a + b,
                0 <= b < SIZE,
        ;
        assert(idx_spec(a, b) == i) by (nonlinear_arith)
            requires
                i == (SIZE as int) * a + b,
                idx_spec(a, b) == a * SIZE + b,
        ;
    }
    assert(m1 =~= m2);
}

/// Reading one in-plane cell of the canonical layer mask.
proof fn lemma_mask0_at(nb: Neighborhood<BlockChunk>, dim: Side, layer: int, a: int, b: int)
    requires
        0 <= a < SIZE,
        0 <= b < SIZE,
    ensures
        spec_mask0(nb, dim, layer)[idx_spec(a, b)] == spec_mask_val(nb, dim, layer, a, b),
{
    lemma_idx_bounds(a, b);
    lemma_idx_div(a, b);
}

/// Pushes one vertex of the quad being emitted.
fn push_quad_vertex(
    verts: &mut Vec<BlockVertex>,
    voxel: Block,
    dim: Side,
    px: usize,
    py: usize,
    pz: usize,
    ou: u8,
    ov: u8,
)
    requires
        px <= SIZE,
        py <= SIZE,
        pz <= SIZE,
    ensures
        final(verts)@ == old(verts)@.push(
            mk_vertex(voxel, dim, px as int, py as int, pz as int, ou, ov),
        ),
{
    let n: (i32, i32, i32) = dim.normal();
    let f: i32 = match dim {
        Side::Top => 1,
        Side::Bottom => 1,
        Side::Front => 0,
        Side::Back => 0,
        Side::Left => 2,
        Side::Right => 2,
    };
    let pre = Precomputed {
        side: dim,
        face_offset: (ou, ov),
        pos: (px as u32, py as u32, pz as u32),
        norm: n,
        face: f,
    };
    let v: BlockVertex = calculate_vertex_data(voxel, pre);
    verts.push(v);
}

/// The mask-based greedy mesher: a reusable per-layer visibility mask, a
/// pick-and-expand sweep, and one vertex and index buffer for all sides.
pub struct GreedyMesher {
    pub index: u32,
    pub neighbors: Neighborhood<BlockChunk>,
    pub mask: Vec<bool>,
    pub dimension: Side,
    pub vertices: Vec<BlockVertex>,
    pub indices: Vec<u32>,
}

impl GreedyMesher {
    /// The mesher's running invariant: the next-vertex counter tracks the
    /// vertex buffer and the mask spans one slice.
    pub open spec fn wf(&self) -> bool {
        &&& self.index as int == self.vertices@.len()
        &&& self.mask@.len() == AREA
    }

    /// The buffers as one mathematical value.
    pub open spec fn state(&self) -> CullState {
        CullState { verts: self.vertices@, inds: self.indices@ }
    }

    /// A fresh mesher over a chunk and its six neighbors, with a cleared
    /// mask.
    pub fn new(
        chunk: BlockChunk,
        top: BlockChunk,
        bottom: BlockChunk,
        left: BlockChunk,
        right: BlockChunk,
        front: BlockChunk,
        back: BlockChunk,
    ) -> (r: GreedyMesher)
        requires
            chunk.wf(),
            top.wf(),
            bottom.wf(),
            left.wf(),
            right.wf(),
            front.wf(),
            back.wf(),
        ensures
            r.wf(),
            r.neighbors.wf(),
            r.neighbors.center == chunk,
            r.dimension == Side::Top,
            r.state() == (CullState { verts: Seq::<BlockVertex>::empty(), inds: Seq::<u32>::empty() }),
    {
        let mut mask: Vec<bool> = Vec::new();
        let mut i: usize = 0;
        while i < AREA
            invariant
                i <= AREA,
                mask@.len() == i,
            decreases AREA - i,
        {
            mask.push(false);
            i = i + 1;
        }
        GreedyMesher {
            neighbors: Neighborhood { center: chunk, top, bottom, left, right, front, back },
            index: 0,
            vertices: Vec::new(),
            indices: Vec::new(),
            mask,
            dimension: Side::Top,
        }
    }

    /// Writes one mask cell.
    pub fn set_mask(&mut self, u: usize, v: usize, value: bool)
        requires
            old(self).mask@.len() == AREA,
            u < SIZE,
            v < SIZE,
        ensures
            final(self).mask@ == old(self).mask@.update(idx_spec(u as int, v as int), value),
            final(self).index == old(self).index,
            final(self).neighbors == old(self).neighbors,
            final(self).dimension == old(self).dimension,
            final(self).vertices == old(self).vertices,
            final(self).indices == old(self).indices,
    {
        let i: usize = idx(u, v);
        self.mask[i] = value;
    }

    /// Reads one mask cell; out-of-range coordinates read as unset.
    pub fn get_mask(&self, u: i32, v: i32) -> (r: bool)
        requires
            self.mask@.len() == AREA,
        ensures
            r == spec_mask_at(self.mask@, u as int, v as int),
    {
        let s: i32 = SIZE as i32;
        if u >= s || u < 0 || v >= s || v < 0 {
            false
        } else {
            proof {
                lemma_idx_bounds(u as int, v as int);
            }
            self.mask[idx(u as usize, v as usize)]
        }
    }

    /// Converts a slice position of the current pass direction to a cell
    /// of the center chunk.
    pub fn to_world_space(&self, u: usize, v: usize, layer: usize) -> (r: (usize, usize, usize))
        requires
            u < SIZE,
            v < SIZE,
            layer < SIZE,
        ensures
            r.0 as int == spec_slice_coord(self.dimension, layer as int, u as int, v as int).0,
            r.1 as int == spec_slice_coord(self.dimension, layer as int, u as int, v as int).1,
            r.2 as int == spec_slice_coord(self.dimension, layer as int, u as int, v as int).2,
    {
        match self.dimension {
            Side::Top => (u, layer, v),
            Side::Bottom => (u, layer, v),
            Side::Right => (layer, u, v),
            Side::Left => (layer, u, v),
            Side::Front => (u, v, layer),
            Side::Back => (u, v, layer),
        }
    }

    /// The unit step along the current pass direction.
    pub fn get_offset_vec(&self) -> (r: (i32, i32, i32))
        ensures
            r.0 as int == self.dimension.spec_normal().0,
            r.1 as int == self.dimension.spec_normal().1,
            r.2 as int == self.dimension.spec_normal().2,
    {
        match self.dimension {
            Side::Top => (0, 1, 0),
            Side::Right => (1, 0, 0),
            Side::Front => (0, 0, 1),
            Side::Bottom => (0, -1, 0),
            Side::Left => (-1, 0, 0),
            Side::Back => (0, 0, -1),
        }
    }

    /// Reads the center chunk at a slice position, or nothing when the
    /// position runs off the slice.
    pub fn get_center(&self, u: i32, v: i32, layer: i32) -> (r: Option<Block>)
        requires
            self.neighbors.wf(),
            0 <= v < SIZE,
            0 <= layer < SIZE,
            0 <= u <= SIZE,
        ensures
            r == if 0 <= u < SIZE {
                Some(
                    spec_center_at(
                        self.neighbors,
                        self.dimension,
                        layer as int,
                        u as int,
                        v as int,
                    ),
                )
            } else {
                None::<Block>
            },
    {
        if u < 0 || u >= SIZE as i32 {
            None
        } else {
            let c: (usize, usize, usize) = self.to_world_space(
                u as usize,
                v as usize,
                layer as usize,
            );
            Some(self.neighbors.center.get(c.0, c.1, c.2))
        }
    }

    /// Rebuilds the visibility mask for one layer of the current pass
    /// direction: a cell is set when it is opaque and the cell one step
    /// along the direction is not.
    #[verifier::loop_isolation(false)]
    pub fn fill_mask(&mut self, layer: usize)
        requires
            old(self).wf(),
            old(self).neighbors.wf(),
            layer < SIZE,
        ensures
            final(self).wf(),
            final(self).mask@ == spec_mask0(
                old(self).neighbors,
                old(self).dimension,
                layer as int,
            ),
            final(self).index == old(self).index,
            final(self).neighbors == old(self).neighbors,
            final(self).dimension == old(self).dimension,
            final(self).vertices == old(self).vertices,
            final(self).indices == old(self).indices,
    {
        let ghost m_old = self.mask@;
        let mut u: usize = 0;
        while u < SIZE
            invariant
                u <= SIZE,
                self.wf(),
                self.index == old(self).index,
                self.neighbors == old(self).neighbors,
                self.dimension == old(self).dimension,
                self.vertices == old(self).vertices,
                self.indices == old(self).indices,
                forall|a: int, b: int|
                    0 <= a < SIZE && 0 <= b < SIZE ==> #[trigger] self.mask@[idx_spec(a, b)] == (
                    if scanned(a, b, u as int, 0) {
                        spec_mask_val(self.neighbors, self.dimension, layer as int, a, b)
                    } else {
                        m_old[idx_spec(a, b)]
                    }),
            decreases SIZE - u,
        {
            let mut v: usize = 0;
            while v < SIZE
                invariant
                    u < SIZE,
                    v <= SIZE,
                    self.wf(),
                    self.index == old(self).index,
                    self.neighbors == old(self).neighbors,
                    self.dimension == old(self).dimension,
                    self.vertices == old(self).vertices,
                    self.indices == old(self).indices,
                    forall|a: int, b: int|
                        0 <= a < SIZE && 0 <= b < SIZE ==> #[trigger] self.mask@[idx_spec(a, b)]
                            == (if scanned(a, b, u as int, v as int) {
                            spec_mask_val(self.neighbors, self.dimension, layer as int, a, b)
                        } else {
                            m_old[idx_spec(a, b)]
                        }),
                decreases SIZE - v,
            {
                let c: (usize, usize, usize) = self.to_world_space(u, v, layer);
                let current: Block = self.neighbors.center.get(c.0, c.1, c.2);
                let off: (i32, i32, i32) = self.get_offset_vec();
                let above: Block = self.neighbors.get(
                    c.0 as i32 + off.0,
                    c.1 as i32 + off.1,
                    c.2 as i32 + off.2,
                ).unwrap();
                let val: bool = current.properties().opaque && !above.properties().opaque;
                let ghost m_pre = self.mask@;
                self.set_mask(u, v, val);
                proof {
                    assert forall|a: int, b: int|
                        0 <= a < SIZE && 0 <= b < SIZE implies #[trigger] self.mask@[idx_spec(
                        a,
                        b,
                    )] == (if scanned(a, b, u as int, v as int + 1) {
                        spec_mask_val(self.neighbors, self.dimension, layer as int, a, b)
                    } else {
                        m_old[idx_spec(a, b)]
                    }) by {
                        lemma_idx_bounds(a, b);
                        lemma_idx_bounds(u as int, v as int);
                        if idx_spec(a, b) == idx_spec(u as int, v as int) {
                            assert(a == u as int && b == v as int) by (nonlinear_arith)
                                requires
                                    0 <= a < SIZE,
                                    0 <= b < SIZE,
                                    0 <= u < SIZE,
                                    0 <= v < SIZE,
                                    a * SIZE + b == (u as int) * SIZE + v as int,
                            ;
                        } else {
                            assert(self.mask@[idx_spec(a, b)] == m_pre[idx_spec(a, b)]);
                        }
                    }
                }
                v = v + 1;
            }
            u = u + 1;
        }
        proof {
            assert forall|a: int, b: int|
                0 <= a < SIZE && 0 <= b < SIZE implies self.mask@[idx_spec(a, b)]
                == #[trigger] spec_mask0(self.neighbors, self.dimension, layer as int)[idx_spec(
                a,
                b,
            )] by {
                lemma_mask0_at(self.neighbors, self.dimension, layer as int, a, b);
                assert(scanned(a, b, SIZE as int, 0));
            }
            lemma_mask_eq_by_cells(
                self.mask@,
                spec_mask0(self.neighbors, self.dimension, layer as int),
            );
        }
    }

    /// Finds the first set mask cell in row-major order, if any is left.
    pub fn pick_pos(&self) -> (r: Option<(usize, usize)>)
        requires
            self.mask@.len() == AREA,
        ensures
            match r {
                Some(p) => p.0 < SIZE && p.1 < SIZE && spec_mask_at(
                    self.mask@,
                    p.0 as int,
                    p.1 as int,
                ) && forall|a: int, b: int|
                    0 <= a < SIZE && 0 <= b < SIZE && scanned(a, b, p.0 as int, p.1 as int)
                        ==> !spec_mask_at(self.mask@, a, b),
                None => forall|a: int, b: int|
                    0 <= a < SIZE && 0 <= b < SIZE ==> !spec_mask_at(self.mask@, a, b),
            },
    {
        let mut u: usize = 0;
        while u < SIZE
            invariant
                u <= SIZE,
                self.mask@.len() == AREA,
                forall|a: int, b: int|
                    0 <= a < SIZE && 0 <= b < SIZE && scanned(a, b, u as int, 0)
                        ==> !spec_mask_at(self.mask@, a, b),
            decreases SIZE - u,
        {
            let mut v: usize = 0;
            while v < SIZE
                invariant
                    u < SIZE,
                    v <= SIZE,
                    self.mask@.len() == AREA,
                    forall|a: int, b: int|
                        0 <= a < SIZE && 0 <= b < SIZE && scanned(a, b, u as int, v as int)
                            ==> !spec_mask_at(self.mask@, a, b),
                decreases SIZE - v,
            {
                let m: bool = self.get_mask(u as i32, v as i32);
                proof {
                    assert((u as i32) as int == u as int);
                    assert((v as i32) as int == v as int);
                }
                if m {
                    return Some((u, v));
                }
                proof {
                    assert(!spec_mask_at(self.mask@, u as int, v as int));
                    assert forall|a: int, b: int|
                        0 <= a < SIZE && 0 <= b < SIZE && scanned(a, b, u as int, v as int + 1)
                            implies !spec_mask_at(self.mask@, a, b) by {
                        if a == u as int && b == v as int {
                            assert(!spec_mask_at(self.mask@, a, b));
                        } else {
                            assert(scanned(a, b, u as int, v as int));
                        }
                    }
                }
                v = v + 1;
            }
            proof {
                assert forall|a: int, b: int|
                    0 <= a < SIZE && 0 <= b < SIZE && scanned(a, b, u as int + 1, 0)
                        implies !spec_mask_at(self.mask@, a, b) by {
                    assert(scanned(a, b, u as int, SIZE as int));
                }
            }
            u = u + 1;
        }
        proof {
            assert forall|a: int, b: int|
                0 <= a < SIZE && 0 <= b < SIZE implies !spec_mask_at(self.mask@, a, b) by {
                assert(scanned(a, b, SIZE as int, 0));
            }
        }
        None
    }

    /// Whether the run can extend onto one more cell: same block, mask
    /// still set.
    fn extend_ok(&self, un: usize, v: usize, layer: usize, start: Block) -> (r: bool)
        requires
            self.neighbors.wf(),
            self.mask@.len() == AREA,
            un < SIZE,
            v < SIZE,
            layer < SIZE,
        ensures
            r == (spec_center_at(self.neighbors, self.dimension, layer as int, un as int, v as int)
                == start && spec_mask_at(self.mask@, un as int, v as int)),
    {
        let cur: Option<Block> = self.get_center(un as i32, v as i32, layer as i32);
        match cur {
            Some(b) => b == start && self.get_mask(un as i32, v as i32),
            None => false,
        }
    }

    /// Grows a quad rightward from its seed cell while the next cell
    /// holds the same block with a set mask.
    pub fn expand_right(&self, u: usize, v: usize, layer: usize) -> (r: Quad)
        requires
            self.neighbors.wf(),
            self.mask@.len() == AREA,
            u < SIZE,
            v < SIZE,
            layer < SIZE,
        ensures
            r.min_u == u,
            r.min_v == v,
            r.max_v == v,
            u <= r.max_u < SIZE,
            r.max_u + 1 - u == spec_gw(
                self.neighbors,
                self.dimension,
                self.mask@,
                spec_center_at(self.neighbors, self.dimension, layer as int, u as int, v as int),
                layer as int,
                u as int,
                v as int,
                1,
            ),
    {
        let start: Block = self.get_center(u as i32, v as i32, layer as i32).unwrap();
        let mut w: usize = 1;
        while u + w < SIZE && self.extend_ok(u + w, v, layer, start)
            invariant
                self.neighbors.wf(),
                self.mask@.len() == AREA,
                u < SIZE,
                v < SIZE,
                layer < SIZE,
                1 <= w,
                u + w <= SIZE,
                start == spec_center_at(
                    self.neighbors,
                    self.dimension,
                    layer as int,
                    u as int,
                    v as int,
                ),
                spec_gw(
                    self.neighbors,
                    self.dimension,
                    self.mask@,
                    start,
                    layer as int,
                    u as int,
                    v as int,
                    w as int,
                ) == spec_gw(
                    self.neighbors,
                    self.dimension,
                    self.mask@,
                    start,
                    layer as int,
                    u as int,
                    v as int,
                    1,
                ),
            decreases SIZE - u - w,
        {
            w = w + 1;
        }
        Quad { min_u: u, min_v: v, max_u: u + w - 1, max_v: v }
    }

    /// Whether every cell of one row within the quad's width holds the
    /// seed block with a set mask.
    fn row_ok(&self, u: usize, w: usize, vrow: usize, layer: usize, start: Block) -> (r: bool)
        requires
            self.neighbors.wf(),
            self.mask@.len() == AREA,
            u + w <= SIZE,
            vrow < SIZE,
            layer < SIZE,
        ensures
            r == spec_row_ok(
                self.neighbors,
                self.dimension,
                self.mask@,
                start,
                layer as int,
                u as int,
                w as int,
                vrow as int,
            ),
    {
        let mut d: usize = 0;
        while d < w
            invariant
                self.neighbors.wf(),
                self.mask@.len() == AREA,
                u + w <= SIZE,
                vrow < SIZE,
                layer < SIZE,
                d <= w,
                forall|e: int|
                    0 <= e < d ==> #[trigger] spec_center_at(
                        self.neighbors,
                        self.dimension,
                        layer as int,
                        u as int + e,
                        vrow as int,
                    ) == start && spec_mask_at(self.mask@, u as int + e, vrow as int),
            decreases w - d,
        {
            if !self.extend_ok(u + d, vrow, layer, start) {
                return false;
            }
            d = d + 1;
        }
        true
    }

    /// Grows a one-row quad downward while every cell of the next row
    /// holds the seed block with a set mask.
    pub fn expand_down(&self, quad: Quad, layer: usize) -> (r: Quad)
        requires
            self.neighbors.wf(),
            self.mask@.len() == AREA,
            quad.min_u <= quad.max_u < SIZE,
            quad.min_v == quad.max_v,
            quad.min_v < SIZE,
            layer < SIZE,
        ensures
            r.min_u == quad.min_u,
            r.min_v == quad.min_v,
            r.max_u == quad.max_u,
            quad.min_v <= r.max_v < SIZE,
            r.max_v + 1 - quad.min_v == spec_gh(
                self.neighbors,
                self.dimension,
                self.mask@,
                spec_center_at(
                    self.neighbors,
                    self.dimension,
                    layer as int,
                    quad.min_u as int,
                    quad.min_v as int,
                ),
                layer as int,
                quad.min_u as int,
                quad.min_v as int,
                quad.max_u as int + 1 - quad.min_u as int,
                1,
            ),
    {
        let minu: usize = quad.min_u;
        let minv: usize = quad.min_v;
        let maxu: usize = quad.max_u;
        let w: usize = maxu + 1 - minu;
        let start: Block = self.get_center(minu as i32, minv as i32, layer as i32).unwrap();
        let mut h: usize = 1;
        while minv + h < SIZE && self.row_ok(minu, w, minv + h, layer, start)
            invariant
                self.neighbors.wf(),
                self.mask@.len() == AREA,
                minu + w <= SIZE,
                minv < SIZE,
                layer < SIZE,
                1 <= h,
                minv + h <= SIZE,
                start == spec_center_at(
                    self.neighbors,
                    self.dimension,
                    layer as int,
                    minu as int,
                    minv as int,
                ),
                spec_gh(
                    self.neighbors,
                    self.dimension,
                    self.mask@,
                    start,
                    layer as int,
                    minu as int,
                    minv as int,
                    w as int,
                    h as int,
                ) == spec_gh(
                    self.neighbors,
                    self.dimension,
                    self.mask@,
                    start,
                    layer as int,
                    minu as int,
                    minv as int,
                    w as int,
                    1,
                ),
            decreases SIZE - minv - h,
        {
            h = h + 1;
        }
        Quad { min_u: minu, min_v: minv, max_u: maxu, max_v: minv + h - 1 }
    }

    /// Clears the mask under an accepted quad.
    #[verifier::loop_isolation(false)]
    pub fn mark_visited(&mut self, quad: Quad)
        requires
            old(self).mask@.len() == AREA,
            quad.min_u <= quad.max_u < SIZE,
            quad.min_v <= quad.max_v < SIZE,
        ensures
            final(self).mask@ == spec_clear_rect(
                old(self).mask@,
                quad.min_u as int,
                quad.min_v as int,
                quad.max_u as int + 1 - quad.min_u as int,
                quad.max_v as int + 1 - quad.min_v as int,
            ),
            final(self).mask@.len() == AREA,
            final(self).index == old(self).index,
            final(self).neighbors == old(self).neighbors,
            final(self).dimension == old(self).dimension,
            final(self).vertices == old(self).vertices,
            final(self).indices == old(self).indices,
    {
        let ghost m0 = self.mask@;
        let ghost qw = quad.max_u as int + 1 - quad.min_u as int;
        let ghost qh = quad.max_v as int + 1 - quad.min_v as int;
        let mut x: usize = quad.min_u;
        while x <= quad.max_u
            invariant
                self.mask@.len() == AREA,
                self.index == old(self).index,
                self.neighbors == old(self).neighbors,
                self.dimension == old(self).dimension,
                self.vertices == old(self).vertices,
                self.indices == old(self).indices,
                quad.min_u <= x <= quad.max_u + 1,
                forall|a: int, b: int|
                    0 <= a < SIZE && 0 <= b < SIZE ==> #[trigger] self.mask@[idx_spec(a, b)] == (
                    if quad.min_u <= a < x && quad.min_v <= b <= quad.max_v {
                        false
                    } else {
                        m0[idx_spec(a, b)]
                    }),
            decreases quad.max_u + 1 - x,
        {
            let mut z: usize = quad.min_v;
            while z <= quad.max_v
                invariant
                    self.mask@.len() == AREA,
                    self.index == old(self).index,
                    self.neighbors == old(self).neighbors,
                    self.dimension == old(self).dimension,
                    self.vertices == old(self).vertices,
                    self.indices == old(self).indices,
                    quad.min_u <= x <= quad.max_u,
                    quad.min_v <= z <= quad.max_v + 1,
                    forall|a: int, b: int|
                        0 <= a < SIZE && 0 <= b < SIZE ==> #[trigger] self.mask@[idx_spec(a, b)]
                            == (if (quad.min_u <= a < x && quad.min_v <= b <= quad.max_v) || (a
                            == x && quad.min_v <= b < z) {
                            false
                        } else {
                            m0[idx_spec(a, b)]
                        }),
                decreases quad.max_v + 1 - z,
            {
                let ghost m_pre = self.mask@;
                self.set_mask(x, z, false);
                proof {
                    assert forall|a: int, b: int|
                        0 <= a < SIZE && 0 <= b < SIZE implies #[trigger] self.mask@[idx_spec(
                        a,
                        b,
                    )] == (if (quad.min_u <= a < x && quad.min_v <= b <= quad.max_v) || (a
                        == x && quad.min_v <= b < z + 1) {
                        false
                    } else {
                        m0[idx_spec(a, b)]
                    }) by {
                        lemma_idx_bounds(a, b);
                        lemma_idx_bounds(x as int, z as int);
                        if idx_spec(a, b) == idx_spec(x as int, z as int) {
                            assert(a == x as int && b == z as int) by (nonlinear_arith)
                                requires
                                    0 <= a < SIZE,
                                    0 <= b < SIZE,
                                    0 <= x < SIZE,
                                    0 <= z < SIZE,
                                    a * SIZE + b == (x as int) * SIZE + z as int,
                            ;
                        } else {
                            assert(self.mask@[idx_spec(a, b)] == m_pre[idx_spec(a, b)]);
                        }
                    }
                }
                z = z + 1;
            }
            x = x + 1;
        }
        proof {
            assert forall|a: int, b: int|
                0 <= a < SIZE && 0 <= b < SIZE implies self.mask@[idx_spec(a, b)]
                == #[trigger] spec_clear_rect(
                m0,
                quad.min_u as int,
                quad.min_v as int,
                qw,
                qh,
            )[idx_spec(a, b)] by {
                lemma_clear_rect_at(m0, quad.min_u as int, quad.min_v as int, qw, qh, a, b);
            }
            lemma_mask_eq_by_cells(
                self.mask@,
                spec_clear_rect(m0, quad.min_u as int, quad.min_v as int, qw, qh),
            );
        }
    }

    /// Emits one accepted quad: six rebased indices in the pass
    /// direction's winding, then its four vertices.
    pub fn add_quad(&mut self, quad: Quad, voxel: Block, layer: usize)
        requires
            old(self).wf(),
            quad.min_u <= quad.max_u < SIZE,
            quad.min_v <= quad.max_v < SIZE,
            layer < SIZE,
            old(self).vertices@.len() + 4 <= u32::MAX,
        ensures
            final(self).wf(),
            final(self).neighbors == old(self).neighbors,
            final(self).dimension == old(self).dimension,
            final(self).mask == old(self).mask,
            final(self).state() == spec_add_quad(
                old(self).state(),
                old(self).dimension,
                voxel,
                layer as int,
                quad.min_u as int,
                quad.min_v as int,
                quad.max_u as int + 1 - quad.min_u as int,
                quad.max_v as int + 1 - quad.min_v as int,
            ),
    {
        let minu: usize = quad.min_u;
        let minv: usize = quad.min_v;
        let maxu: usize = quad.max_u + 1;
        let maxv: usize = quad.max_v + 1;
        let lenu: u8 = (maxu - minu) as u8;
        let lenv: u8 = (maxv - minv) as u8;
        let top: usize = layer + 1;
        let bot: usize = layer;

        let base: u32 = self.index;
        let ghost old_inds = self.indices@;
        match self.dimension {
            Side::Top | Side::Front | Side::Left => {
                self.indices.push(base + 0);
                self.indices.push(base + 1);
                self.indices.push(base + 2);
                self.indices.push(base + 3);
                self.indices.push(base + 2);
                self.indices.push(base + 1);
            },
            Side::Bottom | Side::Back | Side::Right => {
                self.indices.push(base + 0);
                self.indices.push(base + 2);
                self.indices.push(base + 1);
                self.indices.push(base + 3);
                self.indices.push(base + 1);
                self.indices.push(base + 2);
            },
        }
        proof {
            assert(self.indices@ =~= old_inds + spec_face_offset_indices(self.dimension, base));
        }

        let ghost old_verts = self.vertices@;
        let dim: Side = self.dimension;
        match dim {
            Side::Top => {
                push_quad_vertex(&mut self.vertices, voxel, dim, minu, top, minv, 0, lenv);
                push_quad_vertex(&mut self.vertices, voxel, dim, maxu, top, minv, lenu, lenv);
                push_quad_vertex(&mut self.vertices, voxel, dim, minu, top, maxv, 0, 0);
                push_quad_vertex(&mut self.vertices, voxel, dim, maxu, top, maxv, lenu, 0);
            },
            Side::Bottom => {
                push_quad_vertex(&mut self.vertices, voxel, dim, minu, bot, minv, 0, lenv);
                push_quad_vertex(&mut self.vertices, voxel, dim, maxu, bot, minv, lenu, lenv);
                push_quad_vertex(&mut self.vertices, voxel, dim, minu, bot, maxv, 0, 0);
                push_quad_vertex(&mut self.vertices, voxel, dim, maxu, bot, maxv, lenu, 0);
            },
            Side::Front => {
                push_quad_vertex(&mut self.vertices, voxel, dim, minu, maxv, top, 0, 0);
                push_quad_vertex(&mut self.vertices, voxel, dim, maxu, maxv, top, lenu, 0);
                push_quad_vertex(&mut self.vertices, voxel, dim, minu, minv, top, 0, lenv);
                push_quad_vertex(&mut self.vertices, voxel, dim, maxu, minv, top, lenu, lenv);
            },
            Side::Back => {
                push_quad_vertex(&mut self.vertices, voxel, dim, minu, maxv, bot, 0, 0);
                push_quad_vertex(&mut self.vertices, voxel, dim, maxu, maxv, bot, lenu, 0);
                push_quad_vertex(&mut self.vertices, voxel, dim, minu, minv, bot, 0, lenv);
                push_quad_vertex(&mut self.vertices, voxel, dim, maxu, minv, bot, lenu, lenv);
            },
            Side::Left => {
                push_quad_vertex(&mut self.vertices, voxel, dim, bot, maxu, minv, 0, 0);
                push_quad_vertex(&mut self.vertices, voxel, dim, bot, maxu, maxv, lenv, 0);
                push_quad_vertex(&mut self.vertices, voxel, dim, bot, minu, minv, 0, lenu);
                push_quad_vertex(&mut self.vertices, voxel, dim, bot, minu, maxv, lenv, lenu);
            },
            Side::Right => {
                push_quad_vertex(&mut self.vertices, voxel, dim, top, maxu, minv, 0, 0);
                push_quad_vertex(&mut self.vertices, voxel, dim, top, maxu, maxv, lenv, 0);
                push_quad_vertex(&mut self.vertices, voxel, dim, top, minu, minv, 0, lenu);
                push_quad_vertex(&mut self.vertices, voxel, dim, top, minu, maxv, lenv, lenu);
            },
        }
        proof {
            assert(self.vertices@ =~= old_verts + spec_quad_vertices(
                dim,
                voxel,
                layer as int,
                minu as int,
                minv as int,
                maxu as int - minu as int,
                maxv as int - minv as int,
            ));
        }
        self.index = base + 4;
    }
}

} // verus!

verus! {

/// The buffers after the pick-and-expand sweep finishes one layer from
/// scan position `(u, v)` onward: each set mask cell met in row-major
/// order seeds a quad grown right, then down, whose cells are cleared
/// before the sweep resumes.
pub open spec fn spec_greedy_from(
    s: CullState,
    nb: Neighborhood<BlockChunk>,
    dim: Side,
    m: Seq<bool>,
    layer: int,
    u: int,
    v: int,
) -> CullState
    decreases SIZE - u, SIZE - v,
{
    if u < 0 || v < 0 || u >= SIZE {
        s
    } else if v >= SIZE {
        spec_greedy_from(s, nb, dim, m, layer, u + 1, 0)
    } else if !spec_mask_at(m, u, v) {
        spec_greedy_from(s, nb, dim, m, layer, u, v + 1)
    } else {
        let start = spec_center_at(nb, dim, layer, u, v);
        let w = spec_gw(nb, dim, m, start, layer, u, v, 1);
        let h = spec_gh(nb, dim, m, start, layer, u, v, w, 1);
        spec_greedy_from(
            spec_add_quad(s, dim, start, layer, u, v, w, h),
            nb,
            dim,
            spec_clear_rect(m, u, v, w, h),
            layer,
            u,
            v + 1,
        )
    }
}

/// The buffers after sweeping every layer of one pass direction from
/// `layer` onward, each over its freshly built mask.
pub open spec fn spec_greedy_layers(
    s: CullState,
    nb: Neighborhood<BlockChunk>,
    dim: Side,
    layer: int,
) -> CullState
    decreases SIZE - layer,
{
    if layer < 0 || layer >= SIZE {
        s
    } else {
        spec_greedy_layers(
            spec_greedy_from(s, nb, dim, spec_mask0(nb, dim, layer), layer, 0, 0),
            nb,
            dim,
            layer + 1,
        )
    }
}

/// The buffers after a whole mask-based pass started from `s`: the six
/// directions in their fixed order.
pub open spec fn spec_greedy_mesh_from(s: CullState, nb: Neighborhood<BlockChunk>) -> CullState {
    let s1 = spec_greedy_layers(s, nb, Side::Top, 0);
    let s2 = spec_greedy_layers(s1, nb, Side::Right, 0);
    let s3 = spec_greedy_layers(s2, nb, Side::Front, 0);
    let s4 = spec_greedy_layers(s3, nb, Side::Bottom, 0);
    let s5 = spec_greedy_layers(s4, nb, Side::Left, 0);
    spec_greedy_layers(s5, nb, Side::Back, 0)
}

/// The whole mask-based greedy mesh of a neighborhood, over empty
/// buffers: a function of the neighborhood alone, so the pass is
/// deterministic.
pub open spec fn spec_greedy_mesh(nb: Neighborhood<BlockChunk>) -> CullState {
    spec_greedy_mesh_from(CullState { verts: Seq::empty(), inds: Seq::empty() }, nb)
}

/// Scan order agrees with the linear slice index.
proof fn lemma_idx_le(a: int, b: int, c: int, d: int)
    requires
        0 <= a,
        0 <= b <= SIZE,
        0 <= c,
        0 <= d <= SIZE,
        scanned(a, b, c, d) || (a == c && b == d),
    ensures
        idx_spec(a, b) <= idx_spec(c, d),
{
    assert(a * SIZE + b <= c * SIZE + d) by (nonlinear_arith)
        requires
            0 <= a,
            0 <= b <= SIZE,
            0 <= c,
            0 <= d <= SIZE,
            a < c || (a == c && b <= d),
            SIZE >= 1,
    ;
}

/// Sweeping over a stretch of unset mask cells leaves the buffers alone:
/// the sweep from the earlier position equals the sweep from the later
/// one.
proof fn lemma_greedy_skip(
    s: CullState,
    nb: Neighborhood<BlockChunk>,
    dim: Side,
    m: Seq<bool>,
    layer: int,
    u1: int,
    v1: int,
    u2: int,
    v2: int,
)
    requires
        0 <= u1 <= SIZE,
        0 <= v1 <= SIZE,
        (0 <= u2 < SIZE && 0 <= v2 < SIZE) || (u2 == SIZE && v2 == 0),
        scanned(u1, v1, u2, v2) || (u1 == u2 && v1 == v2),
        forall|a: int, b: int|
            0 <= a < SIZE && 0 <= b < SIZE && !scanned(a, b, u1, v1) && scanned(a, b, u2, v2)
                ==> !spec_mask_at(m, a, b),
    ensures
        spec_greedy_from(s, nb, dim, m, layer, u1, v1) == spec_greedy_from(
            s,
            nb,
            dim,
            m,
            layer,
            u2,
            v2,
        ),
    decreases SIZE - u1, SIZE + 1 - v1,
{
    if u1 == u2 && v1 == v2 {
    } else if u1 >= SIZE {
        assert(u2 == SIZE && v2 == 0);
    } else if v1 >= SIZE {
        assert forall|a: int, b: int|
            0 <= a < SIZE && 0 <= b < SIZE && !scanned(a, b, u1 + 1, 0) && scanned(a, b, u2, v2)
                implies !spec_mask_at(m, a, b) by {
            assert(!scanned(a, b, u1, v1));
        }
        lemma_greedy_skip(s, nb, dim, m, layer, u1 + 1, 0, u2, v2);
    } else {
        assert(!scanned(u1, v1, u1, v1));
        assert(scanned(u1, v1, u2, v2));
        assert(!spec_mask_at(m, u1, v1));
        assert forall|a: int, b: int|
            0 <= a < SIZE && 0 <= b < SIZE && !scanned(a, b, u1, v1 + 1) && scanned(a, b, u2, v2)
                implies !spec_mask_at(m, a, b) by {
            assert(!scanned(a, b, u1, v1));
        }
        lemma_greedy_skip(s, nb, dim, m, layer, u1, v1 + 1, u2, v2);
    }
}

impl GreedyMesher {
    /// Sweeps every layer of the current pass direction: fills the mask,
    /// then repeatedly picks the first set cell, expands it right and
    /// down into a maximal rectangle, clears it, and emits it.
    #[verifier::rlimit(100)]
    #[verifier::loop_isolation(false)]
    fn mesh_layers(&mut self)
        requires
            old(self).wf(),
            old(self).neighbors.wf(),
            old(self).vertices@.len() + 4 * AREA * SIZE <= u32::MAX,
        ensures
            final(self).wf(),
            final(self).neighbors == old(self).neighbors,
            final(self).dimension == old(self).dimension,
            final(self).vertices@.len() <= old(self).vertices@.len() + 4 * AREA * SIZE,
            final(self).state() == spec_greedy_layers(
                old(self).state(),
                old(self).neighbors,
                old(self).dimension,
                0,
            ),
    {
        let ghost s0 = self.state();
        let ghost nb = self.neighbors;
        let ghost dim = self.dimension;
        let mut layer: usize = 0;
        while layer < SIZE
            invariant
                layer <= SIZE,
                self.wf(),
                self.neighbors == nb,
                self.dimension == dim,
                self.vertices@.len() <= old(self).vertices@.len() + 4 * AREA * layer,
                spec_greedy_layers(s0, nb, dim, 0) == spec_greedy_layers(
                    self.state(),
                    nb,
                    dim,
                    layer as int,
                ),
            decreases SIZE - layer,
        {
            proof {
                assert(4 * AREA * (layer as int) + 4 * AREA == 4 * AREA * (layer as int + 1))
                    by (nonlinear_arith);
                assert(4 * AREA * (layer as int + 1) <= 4 * AREA * (SIZE as int))
                    by (nonlinear_arith)
                    requires
                        layer as int + 1 <= SIZE as int,
                        AREA >= 0,
                ;
            }
            self.fill_mask(layer);
            let ghost sl = self.state();
            let ghost m_layer = self.mask@;
            let ghost fu: int = 0;
            let ghost fv: int = 0;
            let ghost entry_len = self.vertices@.len() as int;
            let mut go: bool = true;
            while go
                invariant
                    layer < SIZE,
                    self.wf(),
                    self.neighbors == nb,
                    self.dimension == dim,
                    0 <= fu <= SIZE,
                    0 <= fv <= SIZE,
                    self.vertices@.len() as int <= entry_len + 4 * idx_spec(fu, fv),
                    idx_spec(fu, fv) <= AREA,
                    forall|a: int, b: int|
                        0 <= a < SIZE && 0 <= b < SIZE && scanned(a, b, fu, fv)
                            ==> !spec_mask_at(self.mask@, a, b),
                    spec_greedy_from(sl, nb, dim, m_layer, layer as int, 0, 0)
                        == spec_greedy_from(
                        self.state(),
                        nb,
                        dim,
                        self.mask@,
                        layer as int,
                        fu,
                        fv,
                    ),
                    !go ==> spec_greedy_from(sl, nb, dim, m_layer, layer as int, 0, 0)
                        == self.state(),
                    entry_len + 4 * AREA <= u32::MAX,
                decreases (if go {
                    1int
                } else {
                    0int
                }), AREA - idx_spec(fu, fv),
            {
                match self.pick_pos() {
                    None => {
                        proof {
                            assert forall|a: int, b: int|
                                0 <= a < SIZE && 0 <= b < SIZE && !scanned(a, b, fu, fv)
                                    && scanned(a, b, SIZE as int, 0) implies !spec_mask_at(
                                self.mask@,
                                a,
                                b,
                            ) by {}
                            if !(fu == SIZE && fv == 0) {
                                lemma_greedy_skip(
                                    self.state(),
                                    nb,
                                    dim,
                                    self.mask@,
                                    layer as int,
                                    fu,
                                    fv,
                                    SIZE as int,
                                    0,
                                );
                            }
                            assert(spec_greedy_from(
                                self.state(),
                                nb,
                                dim,
                                self.mask@,
                                layer as int,
                                SIZE as int,
                                0,
                            ) == self.state());
                        }
                        go = false;
                        proof {
                            fu = SIZE as int;
                            fv = 0;
                        }
                    },
                    Some(p) => {
                        let (u, v): (usize, usize) = p;
                        proof {
                            assert(spec_mask_at(self.mask@, u as int, v as int));
                            if scanned(u as int, v as int, fu, fv) {
                                assert(!spec_mask_at(self.mask@, u as int, v as int));
                            }
                            if !(fu == u as int && fv == v as int) {
                                assert(scanned(fu, fv, u as int, v as int));
                                lemma_greedy_skip(
                                    self.state(),
                                    nb,
                                    dim,
                                    self.mask@,
                                    layer as int,
                                    fu,
                                    fv,
                                    u as int,
                                    v as int,
                                );
                            }
                            lemma_idx_le(fu, fv, u as int, v as int);
                        }
                        let ghost pre_state = self.state();
                        let ghost pre_mask = self.mask@;
                        let voxel: Block = self.get_center(
                            u as i32,
                            v as i32,
                            layer as i32,
                        ).unwrap();
                        let quad: Quad = self.expand_right(u, v, layer);
                        let quad: Quad = self.expand_down(quad, layer);
                        self.mark_visited(quad);
                        self.add_quad(quad, voxel, layer);
                        proof {
                            let w = quad.max_u as int + 1 - quad.min_u as int;
                            let h = quad.max_v as int + 1 - quad.min_v as int;
                            assert(spec_greedy_from(
                                pre_state,
                                nb,
                                dim,
                                pre_mask,
                                layer as int,
                                u as int,
                                v as int,
                            ) == spec_greedy_from(
                                self.state(),
                                nb,
                                dim,
                                self.mask@,
                                layer as int,
                                u as int,
                                v as int + 1,
                            ));
                            fu = u as int;
                            fv = v as int + 1;
                            lemma_idx_bounds(u as int, v as int);
                            assert forall|a: int, b: int|
                                0 <= a < SIZE && 0 <= b < SIZE && scanned(a, b, fu, fv)
                                    implies !spec_mask_at(self.mask@, a, b) by {
                                lemma_clear_rect_at(pre_mask, u as int, v as int, w, h, a, b);
                                if a == u as int && b == v as int {
                                    assert(!spec_mask_at(self.mask@, a, b));
                                } else {
                                    assert(scanned(a, b, u as int, v as int));
                                    assert(!spec_mask_at(pre_mask, a, b));
                                }
                            }
                        }
                    },
                }
            }
            proof {
                assert(4 * AREA * (layer as int) + 4 * AREA == 4 * AREA * (layer as int + 1))
                    by (nonlinear_arith);
            }
            layer = layer + 1;
        }
    }

    /// One whole mask-based pass: the six directions in fixed order, each
    /// swept layer by layer.  The buffers equal the pass fold, so the
    /// pass is deterministic.
    pub fn mesh(&mut self)
        requires
            old(self).wf(),
            old(self).neighbors.wf(),
            old(self).vertices@.len() + 24 * AREA * SIZE <= u32::MAX,
        ensures
            final(self).wf(),
            final(self).neighbors == old(self).neighbors,
            final(self).state() == spec_greedy_mesh_from(old(self).state(), old(self).neighbors),
    {
        proof {
            assert(4 * AREA * SIZE + 4 * AREA * SIZE + 4 * AREA * SIZE + 4 * AREA * SIZE + 4
                * AREA * SIZE + 4 * AREA * SIZE == 24 * AREA * SIZE) by (nonlinear_arith);
        }
        self.dimension = Side::Top;
        self.mesh_layers();
        self.dimension = Side::Right;
        self.mesh_layers();
        self.dimension = Side::Front;
        self.mesh_layers();
        self.dimension = Side::Bottom;
        self.mesh_layers();
        self.dimension = Side::Left;
        self.mesh_layers();
        self.dimension = Side::Back;
        self.mesh_layers();
    }
}

} // verus!
