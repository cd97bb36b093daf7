//! The slice scanner and greedy merger: per-cell face visibility, per-face
//! corner shading, and the merging of equal adjacent faces into maximal
//! rectangles.

use crate::ao::{spec_ao_value, spec_pack_ao, FaceAo};
use crate::block::{BlockId, BlockRegistry, Side};
use crate::chunk::{pad_index, PaddedChunk};
use crate::SIZE;
use vstd::prelude::*;

verus! {

/// Transient per-cell face descriptor inside one directional slice pass.
/// Cells with no visible face hold the sentinel air face, pre-marked
/// visited so the merge step skips them.
#[derive(Clone, Copy, PartialEq, Eq, Structural, Hash, Debug)]
pub struct VoxelFace {
    pub ao: FaceAo,
    pub id: BlockId,
    pub visited: bool,
}

impl Default for VoxelFace {
    /// The sentinel face of an invisible cell: air, unshaded, already
    /// visited.
    fn default() -> (r: Self)
        ensures
            r == (VoxelFace { ao: FaceAo(0u8), id: BlockId(0u16), visited: true }),
    {
        VoxelFace { ao: FaceAo(0), id: BlockId(0), visited: true }
    }
}

/// A merged run of equal faces, `width` by `height` cells along the slice's
/// two in-plane axes.
#[derive(Clone, Copy, PartialEq, Eq, Structural, Hash, Debug)]
pub struct VoxelQuad {
    pub ao: FaceAo,
    pub id: BlockId,
    pub width: usize,
    pub height: usize,
}

impl From<VoxelFace> for VoxelQuad {
    /// The one-cell quad a merge run starts from.
    fn from(face: VoxelFace) -> (r: Self) {
        VoxelQuad { ao: face.ao, id: face.id, width: 1, height: 1 }
    }
}

impl vstd::std_specs::convert::FromSpecImpl<VoxelFace> for VoxelQuad {
    open spec fn obeys_from_spec() -> bool {
        true
    }

    open spec fn from_spec(face: VoxelFace) -> VoxelQuad {
        VoxelQuad { ao: face.ao, id: face.id, width: 1, height: 1 }
    }
}

/// The block id a padded volume's contents hold at a coordinate.
pub open spec fn at3(c: Seq<BlockId>, x: int, y: int, z: int) -> BlockId {
    c[pad_index(x, y, z)]
}

/// Whether the registry makes this block opaque at a padded coordinate.
pub open spec fn spec_opaque_at(
    c: Seq<BlockId>,
    reg: BlockRegistry,
    x: int,
    y: int,
    z: int,
) -> bool {
    reg.spec_opaque(at3(c, x, y, z))
}

/// The padded coordinate one step along the side's outward normal.
pub open spec fn spec_toward(side: Side, x: int, y: int, z: int) -> (int, int, int) {
    match side {
        Side::Top => (x, y + 1, z),
        Side::Bottom => (x, y - 1, z),
        Side::Right => (x + 1, y, z),
        Side::Left => (x - 1, y, z),
        Side::Front => (x, y, z + 1),
        Side::Back => (x, y, z - 1),
    }
}

/// The occlusion rule: whether the cell at a padded coordinate must emit a
/// face toward the given side.  A liquid cell faces only open, non-solid,
/// non-liquid space; an opaque cell faces anything non-opaque, liquids
/// included; any other cell emits nothing.
pub open spec fn spec_visible(
    c: Seq<BlockId>,
    reg: BlockRegistry,
    x: int,
    y: int,
    z: int,
    side: Side,
) -> bool {
    let cur = at3(c, x, y, z);
    let n = spec_toward(side, x, y, z);
    let other = at3(c, n.0, n.1, n.2);
    if reg.spec_liquid(cur) {
        !reg.spec_opaque(other) && !reg.spec_liquid(other)
    } else {
        reg.spec_opaque(cur) && (!reg.spec_opaque(other) || reg.spec_liquid(other))
    }
}

/// Tests the occlusion rule at a padded coordinate of the center chunk.
pub fn is_not_occluded(
    chunk: &PaddedChunk,
    reg: &BlockRegistry,
    x: usize,
    y: usize,
    z: usize,
    side: Side,
) -> (r: bool)
    requires
        chunk.wf(),
        1 <= x <= SIZE,
        1 <= y <= SIZE,
        1 <= z <= SIZE,
    ensures
        r == spec_visible(chunk@, *reg, x as int, y as int, z as int, side),
{
    let cur: BlockId = chunk.get(x, y, z);
    let other: BlockId = match side {
        Side::Top => chunk.get(x, y + 1, z),
        Side::Bottom => chunk.get(x, y - 1, z),
        Side::Right => chunk.get(x + 1, y, z),
        Side::Left => chunk.get(x - 1, y, z),
        Side::Front => chunk.get(x, y, z + 1),
        Side::Back => chunk.get(x, y, z - 1),
    };
    if reg.liquid(cur) {
        !reg.opaque(other) && !reg.liquid(other)
    } else {
        reg.opaque(cur) && (!reg.opaque(other) || reg.liquid(other))
    }
}

/// The padded coordinate of an ambient-occlusion sample: one step toward
/// the viewer along the side's normal, then `du` and `dv` cells along the
/// slice's two in-plane axes.
pub open spec fn spec_uvl(side: Side, x: int, y: int, z: int, du: int, dv: int) -> (
    int,
    int,
    int,
) {
    match side {
        Side::Top => (x + du, y + 1, z + dv),
        Side::Bottom => (x + du, y - 1, z + dv),
        Side::Right => (x + 1, y + du, z + dv),
        Side::Left => (x - 1, y + du, z + dv),
        Side::Front => (x + du, y + dv, z + 1),
        Side::Back => (x + du, y + dv, z - 1),
    }
}

/// Opacity of the ambient-occlusion sample at in-plane offset `(du, dv)`.
pub open spec fn spec_sample_opaque(
    c: Seq<BlockId>,
    reg: BlockRegistry,
    side: Side,
    x: int,
    y: int,
    z: int,
    du: int,
    dv: int,
) -> bool {
    let p = spec_uvl(side, x, y, z, du, dv);
    spec_opaque_at(c, reg, p.0, p.1, p.2)
}

/// The four packed corner shades of the face at a padded coordinate.
/// Liquid faces always carry zero occlusion.
pub open spec fn spec_face_ao(
    c: Seq<BlockId>,
    reg: BlockRegistry,
    x: int,
    y: int,
    z: int,
    side: Side,
) -> FaceAo {
    if reg.spec_liquid(at3(c, x, y, z)) {
        FaceAo(0u8)
    } else {
        let neg_neg = spec_sample_opaque(c, reg, side, x, y, z, -1, -1);
        let neg_cen = spec_sample_opaque(c, reg, side, x, y, z, -1, 0);
        let neg_pos = spec_sample_opaque(c, reg, side, x, y, z, -1, 1);
        let pos_neg = spec_sample_opaque(c, reg, side, x, y, z, 1, -1);
        let pos_cen = spec_sample_opaque(c, reg, side, x, y, z, 1, 0);
        let pos_pos = spec_sample_opaque(c, reg, side, x, y, z, 1, 1);
        let cen_neg = spec_sample_opaque(c, reg, side, x, y, z, 0, -1);
        let cen_pos = spec_sample_opaque(c, reg, side, x, y, z, 0, 1);
        FaceAo(
            spec_pack_ao(
                spec_ao_value(neg_cen, neg_pos, cen_pos),
                spec_ao_value(cen_neg, neg_neg, neg_cen),
                spec_ao_value(pos_cen, pos_neg, cen_neg),
                spec_ao_value(cen_pos, pos_pos, pos_cen),
            ),
        )
    }
}

/// Adds an in-plane offset of -1, 0 or 1 to a coordinate of the center
/// chunk's padded range.
fn add_off(c: usize, d: i32) -> (r: usize)
    requires
        1 <= c <= SIZE,
        -1 <= d <= 1,
    ensures
        r as int == c + d,
{
    if d < 0 {
        c - 1
    } else {
        c + (d as usize)
    }
}

/// Reads the opacity of one ambient-occlusion sample.
fn sample_opaque(
    chunk: &PaddedChunk,
    reg: &BlockRegistry,
    side: Side,
    x: usize,
    y: usize,
    z: usize,
    du: i32,
    dv: i32,
) -> (r: bool)
    requires
        chunk.wf(),
        1 <= x <= SIZE,
        1 <= y <= SIZE,
        1 <= z <= SIZE,
        -1 <= du <= 1,
        -1 <= dv <= 1,
    ensures
        r == spec_sample_opaque(chunk@, *reg, side, x as int, y as int, z as int, du as int,
        dv as int),
{
    let id: BlockId = match side {
        Side::Top => chunk.get(add_off(x, du), y + 1, add_off(z, dv)),
        Side::Bottom => chunk.get(add_off(x, du), y - 1, add_off(z, dv)),
        Side::Right => chunk.get(x + 1, add_off(y, du), add_off(z, dv)),
        Side::Left => chunk.get(x - 1, add_off(y, du), add_off(z, dv)),
        Side::Front => chunk.get(add_off(x, du), add_off(y, dv), z + 1),
        Side::Back => chunk.get(add_off(x, du), add_off(y, dv), z - 1),
    };
    reg.opaque(id)
}

/// Evaluates the four corner shades of the face at a padded coordinate from
/// the ring of up-to-eight samples in front of it.  A liquid face receives
/// zero occlusion.
pub fn face_ao(
    chunk: &PaddedChunk,
    reg: &BlockRegistry,
    x: usize,
    y: usize,
    z: usize,
    side: Side,
) -> (r: FaceAo)
    requires
        chunk.wf(),
        1 <= x <= SIZE,
        1 <= y <= SIZE,
        1 <= z <= SIZE,
    ensures
        r == spec_face_ao(chunk@, *reg, x as int, y as int, z as int, side),
        reg.spec_liquid(at3(chunk@, x as int, y as int, z as int)) ==> r == FaceAo(0u8),
{
    if reg.liquid(chunk.get(x, y, z)) {
        return FaceAo(0);
    }
    let neg_neg: bool = sample_opaque(chunk, reg, side, x, y, z, -1, -1);
    let neg_cen: bool = sample_opaque(chunk, reg, side, x, y, z, -1, 0);
    let neg_pos: bool = sample_opaque(chunk, reg, side, x, y, z, -1, 1);
    let pos_neg: bool = sample_opaque(chunk, reg, side, x, y, z, 1, -1);
    let pos_cen: bool = sample_opaque(chunk, reg, side, x, y, z, 1, 0);
    let pos_pos: bool = sample_opaque(chunk, reg, side, x, y, z, 1, 1);
    let cen_neg: bool = sample_opaque(chunk, reg, side, x, y, z, 0, -1);
    let cen_pos: bool = sample_opaque(chunk, reg, side, x, y, z, 0, 1);

    let face_pos_pos: u8 = crate::ao::ao_value(cen_pos, pos_pos, pos_cen);
    let face_pos_neg: u8 = crate::ao::ao_value(pos_cen, pos_neg, cen_neg);
    let face_neg_neg: u8 = crate::ao::ao_value(cen_neg, neg_neg, neg_cen);
    let face_neg_pos: u8 = crate::ao::ao_value(neg_cen, neg_pos, cen_pos);

    FaceAo::pack(face_neg_pos, face_neg_neg, face_pos_neg, face_pos_pos)
}

} // verus!

use crate::AREA;
use vstd::arithmetic::div_mod::lemma_fundamental_div_mod_converse;

verus! {

/// Linear index of the in-plane cell `(u, v)` inside a slice buffer.
pub open spec fn idx_spec(u: int, v: int) -> int {
    u * SIZE + v
}

/// The face stored for the in-plane cell `(u, v)` of a slice buffer.
pub open spec fn face_at(s: Seq<VoxelFace>, u: int, v: int) -> VoxelFace {
    s[idx_spec(u, v)]
}

/// A slice cell's index stays inside the slice buffer.
pub proof fn lemma_idx_bounds(u: int, v: int)
    requires
        0 <= u < SIZE,
        0 <= v < SIZE,
    ensures
        0 <= idx_spec(u, v) < AREA,
{
    assert(0 <= u * SIZE + v < SIZE * SIZE) by (nonlinear_arith)
        requires
            0 <= u < SIZE,
            0 <= v < SIZE,
    ;
    assert(AREA == SIZE * SIZE);
}

/// Recovering the two in-plane coordinates from a linear slice index.
pub proof fn lemma_idx_div(u: int, v: int)
    requires
        0 <= u < SIZE,
        0 <= v < SIZE,
    ensures
        idx_spec(u, v) / (SIZE as int) == u,
        idx_spec(u, v) % (SIZE as int) == v,
{
    lemma_fundamental_div_mod_converse(idx_spec(u, v), SIZE as int, u, v);
}

/// Computes the linear index of an in-plane cell.
pub fn idx(u: usize, v: usize) -> (r: usize)
    requires
        u < SIZE,
        v < SIZE,
    ensures
        r as int == idx_spec(u as int, v as int),
        r < AREA,
{
    proof {
        lemma_idx_bounds(u as int, v as int);
        assert(u as int * SIZE + v == (SIZE * u + v) as int) by (nonlinear_arith)
            requires
                0 <= u < SIZE,
                0 <= v < SIZE,
        ;
    }
    SIZE * u + v
}

/// A face the merger must cover: not yet visited, and of a block type that
/// renders at all.
pub open spec fn mergeable(reg: BlockRegistry, f: VoxelFace) -> bool {
    !f.visited && (reg.spec_opaque(f.id) || reg.spec_liquid(f.id))
}

/// A merged quad together with the in-plane origin it was emitted at.
#[derive(Clone, Copy, PartialEq, Eq, Structural, Hash, Debug)]
pub struct PlacedQuad {
    pub quad: VoxelQuad,
    pub u: usize,
    pub v: usize,
}

/// Whether a placed quad covers the in-plane cell `(a, b)`.
pub open spec fn covers(q: PlacedQuad, a: int, b: int) -> bool {
    q.u <= a < q.u + q.quad.width && q.v <= b < q.v + q.quad.height
}

/// Whether any quad of the list covers the in-plane cell `(a, b)`.
pub open spec fn covered_by(quads: Seq<PlacedQuad>, a: int, b: int) -> bool {
    exists|i: int| 0 <= i < quads.len() && covers(quads[i], a, b)
}

/// A quad with at least one cell that stays inside the slice.
pub open spec fn quad_in_bounds(q: PlacedQuad) -> bool {
    &&& 1 <= q.quad.width
    &&& 1 <= q.quad.height
    &&& q.u + q.quad.width <= SIZE
    &&& q.v + q.quad.height <= SIZE
}

/// Every cell a quad covers held a coverable face with exactly the quad's
/// block id and packed corner shades.
pub open spec fn quad_matches(s0: Seq<VoxelFace>, reg: BlockRegistry, q: PlacedQuad) -> bool {
    forall|a: int, b: int|
        covers(q, a, b) ==> mergeable(reg, #[trigger] face_at(s0, a, b)) && face_at(s0, a, b).id
            == q.quad.id && face_at(s0, a, b).ao == q.quad.ao
}

/// No two quads of the list cover a common cell.
pub open spec fn quads_disjoint(quads: Seq<PlacedQuad>) -> bool {
    forall|i: int, j: int, a: int, b: int|
        0 <= i < quads.len() && 0 <= j < quads.len() && i != j ==> !(#[trigger] covers(
            quads[i],
            a,
            b,
        ) && #[trigger] covers(quads[j], a, b))
}

/// Greedy width growth: how wide the run of faces equal to `f` reaches,
/// starting at width `w` from seed column `u` in row `v`.
pub open spec fn spec_grow_w(s: Seq<VoxelFace>, f: VoxelFace, u: int, v: int, w: int) -> int
    decreases SIZE - (u + w),
{
    if 0 <= u && 0 <= w && u + w < SIZE && face_at(s, u + w, v) == f {
        spec_grow_w(s, f, u, v, w + 1)
    } else {
        w
    }
}

/// Whether the `w` cells starting at column `u` of row `vrow` all equal `f`.
pub open spec fn row_matches(s: Seq<VoxelFace>, f: VoxelFace, u: int, w: int, vrow: int) -> bool {
    forall|d: int| 0 <= d < w ==> #[trigger] face_at(s, u + d, vrow) == f
}

/// Greedy height growth: how many whole rows equal to the seed face the
/// quad reaches, starting at height `h`.
pub open spec fn spec_grow_h(
    s: Seq<VoxelFace>,
    f: VoxelFace,
    u: int,
    v: int,
    w: int,
    h: int,
) -> int
    decreases SIZE - (v + h),
{
    if 0 <= v && 0 <= h && v + h < SIZE && row_matches(s, f, u, w, v + h) {
        spec_grow_h(s, f, u, v, w, h + 1)
    } else {
        h
    }
}

/// The slice buffer with every cell of the `w` by `h` rectangle at
/// `(u, v)` marked visited.
pub open spec fn mark_covered(s: Seq<VoxelFace>, u: int, v: int, w: int, h: int) -> Seq<
    VoxelFace,
> {
    Seq::new(
        s.len(),
        |i: int|
            if u <= i / (SIZE as int) < u + w && v <= i % (SIZE as int) < v + h {
                VoxelFace { ao: s[i].ao, id: s[i].id, visited: true }
            } else {
                s[i]
            },
    )
}

/// Reading one in-plane cell of a marked slice buffer.
proof fn lemma_mark_covered_at(s: Seq<VoxelFace>, u: int, v: int, w: int, h: int, a: int, b: int)
    requires
        s.len() == AREA,
        0 <= a < SIZE,
        0 <= b < SIZE,
    ensures
        face_at(mark_covered(s, u, v, w, h), a, b) == if u <= a < u + w && v <= b < v + h {
            VoxelFace { ao: face_at(s, a, b).ao, id: face_at(s, a, b).id, visited: true }
        } else {
            face_at(s, a, b)
        },
{
    lemma_idx_bounds(a, b);
    lemma_idx_div(a, b);
}

/// Two slice buffers equal on every in-plane cell are equal.
proof fn lemma_eq_by_cells(s1: Seq<VoxelFace>, s2: Seq<VoxelFace>)
    requires
        s1.len() == AREA,
        s2.len() == AREA,
        forall|a: int, b: int|
            0 <= a < SIZE && 0 <= b < SIZE ==> #[trigger] face_at(s1, a, b) == face_at(s2, a, b),
    ensures
        s1 == s2,
{
    assert forall|i: int| 0 <= i < AREA implies s1[i] == s2[i] by {
        let a = i / (SIZE as int);
        let b = i % (SIZE as int);
        vstd::arithmetic::div_mod::lemma_fundamental_div_mod(i, SIZE as int);
        vstd::arithmetic::div_mod::lemma_mod_bound(i, SIZE as int);
        assert(0 <= a < SIZE) by (nonlinear_arith)
            requires
                0 <= i < AREA,
                AREA == SIZE * SIZE,
                i == (SIZE as int) * a + b,
                0 <= b < SIZE,
        ;
        assert(idx_spec(a, b) == i) by (nonlinear_arith)
            requires
                i == (SIZE as int) * a + b,
                idx_spec(a, b) == a * SIZE + b,
        ;
        assert(s1[i] == face_at(s1, a, b));
        assert(s2[i] == face_at(s2, a, b));
    }
    assert(s1 =~= s2);
}

/// Appending a quad extends coverage by exactly that quad's cells.
proof fn lemma_covered_push(quads: Seq<PlacedQuad>, q: PlacedQuad, a: int, b: int)
    ensures
        covered_by(quads.push(q), a, b) <==> (covered_by(quads, a, b) || covers(q, a, b)),
{
    if covered_by(quads.push(q), a, b) {
        let i = choose|i: int| 0 <= i < quads.push(q).len() && covers(quads.push(q)[i], a, b);
        if i < quads.len() {
            assert(quads.push(q)[i] == quads[i]);
            assert(covers(quads[i], a, b));
        } else {
            assert(quads.push(q)[i] == q);
        }
    }
    if covered_by(quads, a, b) {
        let i = choose|i: int| 0 <= i < quads.len() && covers(quads[i], a, b);
        assert(quads.push(q)[i] == quads[i]);
        assert(covers(quads.push(q)[i], a, b));
    }
    if covers(q, a, b) {
        let i = quads.len() as int;
        assert(quads.push(q)[i] == q);
        assert(covers(quads.push(q)[i], a, b));
    }
}

/// The quads the greedy merger emits from scan position `(u, v)` onward,
/// given the slice buffer's current contents.  The scan is row-major, `u`
/// outer and `v` inner; a seed face grows in width first, then in whole
/// rows, and the covered cells are marked visited before the scan resumes.
pub open spec fn spec_merge_from(
    reg: BlockRegistry,
    s: Seq<VoxelFace>,
    u: int,
    v: int,
) -> Seq<PlacedQuad>
    decreases SIZE - u, SIZE - v,
{
    if u < 0 || v < 0 || u >= SIZE {
        Seq::empty()
    } else if v >= SIZE {
        spec_merge_from(reg, s, u + 1, 0)
    } else {
        let f = face_at(s, u, v);
        if mergeable(reg, f) {
            let w = spec_grow_w(s, f, u, v, 1);
            let h = spec_grow_h(s, f, u, v, w, 1);
            let q = PlacedQuad {
                quad: VoxelQuad { ao: f.ao, id: f.id, width: w as usize, height: h as usize },
                u: u as usize,
                v: v as usize,
            };
            seq![q] + spec_merge_from(reg, mark_covered(s, u, v, w, h), u, v + 1)
        } else {
            spec_merge_from(reg, s, u, v + 1)
        }
    }
}

/// Everything the greedy merger leaves behind: the quads it has emitted so
/// far and the slice buffer state, related to the buffer's contents at the
/// start of the pass.
pub open spec fn merge_state_inv(
    reg: BlockRegistry,
    s0: Seq<VoxelFace>,
    s: Seq<VoxelFace>,
    quads: Seq<PlacedQuad>,
) -> bool {
    &&& s.len() == AREA
    &&& s0.len() == AREA
    &&& forall|a: int, b: int|
        0 <= a < SIZE && 0 <= b < SIZE ==> (#[trigger] face_at(s, a, b)).id == face_at(
            s0,
            a,
            b,
        ).id && face_at(s, a, b).ao == face_at(s0, a, b).ao
    &&& forall|a: int, b: int|
        0 <= a < SIZE && 0 <= b < SIZE ==> ((#[trigger] face_at(s, a, b)).visited <==> (face_at(
            s0,
            a,
            b,
        ).visited || covered_by(quads, a, b)))
    &&& forall|i: int|
        0 <= i < quads.len() ==> quad_in_bounds(#[trigger] quads[i]) && quad_matches(
            s0,
            reg,
            quads[i],
        )
    &&& quads_disjoint(quads)
}

/// True when the scan has passed in-plane cell `(a, b)` once it stands at
/// `(u, v)`.
pub open spec fn scanned(a: int, b: int, u: int, v: int) -> bool {
    a < u || (a == u && b < v)
}

/// Checks whether the `w` cells starting at column `u` of row `vrow` all
/// equal the seed face.
fn row_all_equal(slice: &Vec<VoxelFace>, f: VoxelFace, u: usize, w: usize, vrow: usize) -> (r:
    bool)
    requires
        slice@.len() == AREA,
        u + w <= SIZE,
        vrow < SIZE,
    ensures
        r == row_matches(slice@, f, u as int, w as int, vrow as int),
{
    let mut d: usize = 0;
    while d < w
        invariant
            slice@.len() == AREA,
            u + w <= SIZE,
            vrow < SIZE,
            d <= w,
            forall|e: int| 0 <= e < d ==> #[trigger] face_at(slice@, u as int + e, vrow as int) == f,
        decreases w - d,
    {
        if !(slice[idx(u + d, vrow)] == f) {
            assert(face_at(slice@, u as int + d, vrow as int) != f);
            return false;
        }
        d = d + 1;
    }
    true
}

} // verus!

verus! {

/// Greedily merges a filled slice buffer into maximal rectangles of equal
/// faces, marking every covered cell visited.
///
/// The returned quads are exactly the deterministic row-major greedy
/// merge of the buffer's starting contents.  They are pairwise disjoint,
/// each is uniform in block id and packed corner shades, and together they
/// cover exactly the coverable cells: no overlap, no omission.
pub fn merge_slice(slice: &mut Vec<VoxelFace>, reg: &BlockRegistry) -> (quads: Vec<PlacedQuad>)
    requires
        old(slice)@.len() == AREA,
    ensures
        final(slice)@.len() == AREA,
        quads@ == spec_merge_from(*reg, old(slice)@, 0, 0),
        quads@.len() <= AREA,
        forall|i: int|
            0 <= i < quads@.len() ==> quad_in_bounds(#[trigger] quads@[i]) && quad_matches(
                old(slice)@,
                *reg,
                quads@[i],
            ),
        quads_disjoint(quads@),
        forall|a: int, b: int|
            0 <= a < SIZE && 0 <= b < SIZE ==> (mergeable(*reg, #[trigger] face_at(old(slice)@, a, b))
                <==> covered_by(quads@, a, b)),
{
    let ghost s0 = old(slice)@;
    let mut quads: Vec<PlacedQuad> = Vec::new();
    let mut u: usize = 0;
    while u < SIZE
        invariant
            slice@.len() == AREA,
            s0 == old(slice)@,
            u <= SIZE,
            merge_state_inv(*reg, s0, slice@, quads@),
            forall|a: int, b: int|
                0 <= a < SIZE && 0 <= b < SIZE && scanned(a, b, u as int, 0) && mergeable(
                    *reg,
                    #[trigger] face_at(s0, a, b),
                ) ==> covered_by(quads@, a, b),
            quads@.len() <= idx_spec(u as int, 0),
            spec_merge_from(*reg, s0, 0, 0) == quads@ + spec_merge_from(
                *reg,
                slice@,
                u as int,
                0,
            ),
        decreases SIZE - u,
    {
        let mut v: usize = 0;
        while v < SIZE
            invariant
                slice@.len() == AREA,
                s0 == old(slice)@,
                u < SIZE,
                v <= SIZE,
                merge_state_inv(*reg, s0, slice@, quads@),
                forall|a: int, b: int|
                    0 <= a < SIZE && 0 <= b < SIZE && scanned(a, b, u as int, v as int)
                        && mergeable(*reg, #[trigger] face_at(s0, a, b)) ==> covered_by(
                        quads@,
                        a,
                        b,
                    ),
                quads@.len() <= idx_spec(u as int, v as int),
                spec_merge_from(*reg, s0, 0, 0) == quads@ + spec_merge_from(
                    *reg,
                    slice@,
                    u as int,
                    v as int,
                ),
            decreases SIZE - v,
        {
            let i: usize = idx(u, v);
            let cur: VoxelFace = slice[i];
            proof {
                assert(cur == face_at(slice@, u as int, v as int));
            }
            if !cur.visited && (reg.opaque(cur.id) || reg.liquid(cur.id)) {
                let ghost s_pre = slice@;
                // Grow the quad's width along u while the next cell equals
                // the seed face.
                let mut w: usize = 1;
                while u + w < SIZE && slice[idx(u + w, v)] == cur
                    invariant
                        slice@.len() == AREA,
                        slice@ == s_pre,
                        u < SIZE,
                        v < SIZE,
                        1 <= w,
                        u + w <= SIZE,
                        forall|d: int|
                            0 <= d < w ==> #[trigger] face_at(s_pre, u as int + d, v as int)
                                == cur,
                        spec_grow_w(s_pre, cur, u as int, v as int, w as int) == spec_grow_w(
                            s_pre,
                            cur,
                            u as int,
                            v as int,
                            1,
                        ),
                    decreases SIZE - u - w,
                {
                    w = w + 1;
                }
                proof {
                    assert(spec_grow_w(s_pre, cur, u as int, v as int, w as int) == w as int);
                }
                // Grow the quad's height along v while every cell of the
                // next row equals the seed face.
                proof {
                    assert forall|a: int, b: int|
                        u as int <= a < u as int + w && v as int <= b < v as int
                            + 1 implies #[trigger] face_at(s_pre, a, b) == cur by {
                        assert(face_at(s_pre, u as int + (a - u as int), v as int) == cur);
                    }
                }
                let mut h: usize = 1;
                while v + h < SIZE && row_all_equal(slice, cur, u, w, v + h)
                    invariant
                        slice@.len() == AREA,
                        slice@ == s_pre,
                        u < SIZE,
                        v < SIZE,
                        1 <= w,
                        u + w <= SIZE,
                        1 <= h,
                        v + h <= SIZE,
                        forall|a: int, b: int|
                            u as int <= a < u as int + w && v as int <= b < v as int + h
                                ==> #[trigger] face_at(s_pre, a, b) == cur,
                        spec_grow_h(s_pre, cur, u as int, v as int, w as int, h as int)
                            == spec_grow_h(s_pre, cur, u as int, v as int, w as int, 1),
                    decreases SIZE - v - h,
                {
                    proof {
                        assert forall|a: int, b: int|
                            u as int <= a < u as int + w && v as int <= b < v as int + h
                                + 1 implies #[trigger] face_at(s_pre, a, b) == cur by {
                            if b == v as int + h {
                                assert(face_at(s_pre, u as int + (a - u as int), b) == cur);
                            }
                        }
                    }
                    h = h + 1;
                }
                proof {
                    assert(spec_grow_h(s_pre, cur, u as int, v as int, w as int, h as int)
                        == h as int);
                }
                // Mark every covered cell visited.
                let marked: VoxelFace = VoxelFace { ao: cur.ao, id: cur.id, visited: true };
                let mut du: usize = 0;
                while du < w
                    invariant
                        slice@.len() == AREA,
                        u < SIZE,
                        v < SIZE,
                        1 <= w,
                        u + w <= SIZE,
                        1 <= h,
                        v + h <= SIZE,
                        du <= w,
                        marked == (VoxelFace { ao: cur.ao, id: cur.id, visited: true }),
                        forall|a: int, b: int|
                            u as int <= a < u as int + w && v as int <= b < v as int + h
                                ==> #[trigger] face_at(s_pre, a, b) == cur,
                        forall|a: int, b: int|
                            0 <= a < SIZE && 0 <= b < SIZE ==> #[trigger] face_at(slice@, a, b)
                                == (if u as int <= a < u as int + du && v as int <= b < v as int
                                + h {
                                marked
                            } else {
                                face_at(s_pre, a, b)
                            }),
                    decreases w - du,
                {
                    let mut dvv: usize = 0;
                    while dvv < h
                        invariant
                            slice@.len() == AREA,
                            u < SIZE,
                            v < SIZE,
                            1 <= w,
                            u + w <= SIZE,
                            1 <= h,
                            v + h <= SIZE,
                            du < w,
                            dvv <= h,
                            marked == (VoxelFace { ao: cur.ao, id: cur.id, visited: true }),
                            forall|a: int, b: int|
                                u as int <= a < u as int + w && v as int <= b < v as int + h
                                    ==> #[trigger] face_at(s_pre, a, b) == cur,
                            forall|a: int, b: int|
                                0 <= a < SIZE && 0 <= b < SIZE ==> #[trigger] face_at(
                                    slice@,
                                    a,
                                    b,
                                ) == (if (u as int <= a < u as int + du && v as int <= b
                                    < v as int + h) || (a == u as int + du && v as int <= b
                                    < v as int + dvv) {
                                    marked
                                } else {
                                    face_at(s_pre, a, b)
                                }),
                        decreases h - dvv,
                    {
                        let j: usize = idx(u + du, v + dvv);
                        let ghost before = slice@;
                        slice[j] = marked;
                        proof {
                            assert forall|a: int, b: int|
                                0 <= a < SIZE && 0 <= b < SIZE implies #[trigger] face_at(
                                slice@,
                                a,
                                b,
                            ) == (if (u as int <= a < u as int + du && v as int <= b < v as int
                                + h) || (a == u as int + du && v as int <= b < v as int + dvv
                                + 1) {
                                marked
                            } else {
                                face_at(s_pre, a, b)
                            }) by {
                                lemma_idx_bounds(a, b);
                                lemma_idx_bounds(u as int + du, v as int + dvv);
                                if idx_spec(a, b) == idx_spec(u as int + du, v as int + dvv) {
                                    assert(a * SIZE + b == (u as int + du) * SIZE + (v as int
                                        + dvv) ==> a == u as int + du && b == v as int + dvv)
                                        by (nonlinear_arith)
                                        requires
                                            0 <= a < SIZE,
                                            0 <= b < SIZE,
                                            0 <= u as int + du < SIZE,
                                            0 <= v as int + dvv < SIZE,
                                    ;
                                    assert(face_at(slice@, a, b) == marked);
                                } else {
                                    assert(face_at(slice@, a, b) == face_at(before, a, b));
                                }
                            }
                        }
                        dvv = dvv + 1;
                    }
                    du = du + 1;
                }
                proof {
                    assert forall|a: int, b: int|
                        0 <= a < SIZE && 0 <= b < SIZE implies #[trigger] face_at(slice@, a, b)
                        == face_at(
                        mark_covered(s_pre, u as int, v as int, w as int, h as int),
                        a,
                        b,
                    ) by {
                        lemma_mark_covered_at(
                            s_pre,
                            u as int,
                            v as int,
                            w as int,
                            h as int,
                            a,
                            b,
                        );
                    }
                    lemma_eq_by_cells(
                        slice@,
                        mark_covered(s_pre, u as int, v as int, w as int, h as int),
                    );
                }
                // Emit the merged quad at its seed position.
                let seed_quad: VoxelQuad = VoxelQuad::from(cur);
                let q: PlacedQuad = PlacedQuad {
                    quad: VoxelQuad { ao: seed_quad.ao, id: seed_quad.id, width: w, height: h },
                    u,
                    v,
                };
                let ghost quads_pre = quads@;
                quads.push(q);
                proof {
                    assert(quads@ == quads_pre.push(q));
                    assert(quads@ =~= quads_pre + seq![q]);
                    assert forall|a: int, b: int| covered_by(quads@, a, b) == (covered_by(
                        quads_pre,
                        a,
                        b,
                    ) || covers(q, a, b)) by {
                        lemma_covered_push(quads_pre, q, a, b);
                    }
                    // The new quad covers only cells that were uncovered:
                    // they all held the unvisited seed face.
                    assert forall|a: int, b: int| covers(q, a, b) implies !covered_by(
                        quads_pre,
                        a,
                        b,
                    ) && mergeable(*reg, face_at(s0, a, b)) && face_at(s0, a, b).id == q.quad.id
                        && face_at(s0, a, b).ao == q.quad.ao by {
                        assert(face_at(s_pre, a, b) == cur);
                        assert(!face_at(s_pre, a, b).visited);
                        assert(face_at(s0, a, b).id == cur.id && face_at(s0, a, b).ao == cur.ao);
                        assert(!face_at(s0, a, b).visited);
                    }
                    // Disjointness of the extended list.
                    assert forall|i: int, j: int, a: int, b: int|
                        0 <= i < quads@.len() && 0 <= j < quads@.len() && i != j implies !(
                    #[trigger] covers(quads@[i], a, b) && #[trigger] covers(
                        quads@[j],
                        a,
                        b,
                    )) by {
                        if i < quads_pre.len() && j < quads_pre.len() {
                            assert(quads@[i] == quads_pre[i]);
                            assert(quads@[j] == quads_pre[j]);
                        } else if i == quads_pre.len() {
                            assert(quads@[i] == q);
                            assert(quads@[j] == quads_pre[j]);
                            if covers(q, a, b) && covers(quads_pre[j], a, b) {
                                assert(covered_by(quads_pre, a, b));
                            }
                        } else {
                            assert(quads@[j] == q);
                            assert(quads@[i] == quads_pre[i]);
                            if covers(q, a, b) && covers(quads_pre[i], a, b) {
                                assert(covered_by(quads_pre, a, b));
                            }
                        }
                    }
                    // The mirror invariant advances by one unfolding of the
                    // greedy recursion at the seed cell.
                    assert(mergeable(*reg, face_at(s_pre, u as int, v as int)));
                    assert(spec_merge_from(*reg, s_pre, u as int, v as int) == seq![q]
                        + spec_merge_from(*reg, slice@, u as int, v as int + 1));
                    assert(quads@ + spec_merge_from(*reg, slice@, u as int, v as int + 1)
                        =~= quads_pre + (seq![q] + spec_merge_from(
                        *reg,
                        slice@,
                        u as int,
                        v as int + 1,
                    )));
                    // Length bound for the extended list.
                    lemma_idx_bounds(u as int, v as int);
                    // The slice buffer's relation to its starting contents
                    // survives the marking.
                    assert(quad_matches(s0, *reg, q));
                    assert forall|i: int|
                        0 <= i < quads@.len() implies quad_in_bounds(#[trigger] quads@[i])
                        && quad_matches(s0, *reg, quads@[i]) by {
                        if i < quads_pre.len() {
                            assert(quads@[i] == quads_pre[i]);
                        } else {
                            assert(quads@[i] == q);
                        }
                    }
                    assert forall|a: int, b: int|
                        0 <= a < SIZE && 0 <= b < SIZE implies (#[trigger] face_at(
                        slice@,
                        a,
                        b,
                    )).id == face_at(s0, a, b).id && face_at(slice@, a, b).ao == face_at(
                        s0,
                        a,
                        b,
                    ).ao && (face_at(slice@, a, b).visited <==> (face_at(s0, a, b).visited
                        || covered_by(quads@, a, b))) by {
                        lemma_mark_covered_at(
                            s_pre,
                            u as int,
                            v as int,
                            w as int,
                            h as int,
                            a,
                            b,
                        );
                        if covers(q, a, b) {
                            assert(face_at(s_pre, a, b) == cur);
                        }
                    }
                }
            } else {
                proof {
                    assert(spec_merge_from(*reg, slice@, u as int, v as int) == spec_merge_from(
                        *reg,
                        slice@,
                        u as int,
                        v as int + 1,
                    ));
                    // The skipped cell either renders nothing or is already
                    // covered.
                    assert forall|a: int, b: int|
                        0 <= a < SIZE && 0 <= b < SIZE && scanned(a, b, u as int, v as int + 1)
                            && mergeable(*reg, #[trigger] face_at(s0, a, b)) implies covered_by(
                        quads@,
                        a,
                        b,
                    ) by {
                        if a == u as int && b == v as int {
                            assert(face_at(slice@, a, b).visited);
                        }
                    }
                }
            }
            v = v + 1;
        }
        proof {
            assert(spec_merge_from(*reg, slice@, u as int, SIZE as int) == spec_merge_from(
                *reg,
                slice@,
                u as int + 1,
                0,
            ));
            assert(idx_spec(u as int, SIZE as int) == idx_spec(u as int + 1, 0))
                by (nonlinear_arith);
            assert forall|a: int, b: int|
                0 <= a < SIZE && 0 <= b < SIZE && scanned(a, b, u as int + 1, 0) && mergeable(
                    *reg,
                    #[trigger] face_at(s0, a, b),
                ) implies covered_by(quads@, a, b) by {
                assert(scanned(a, b, u as int, SIZE as int));
            }
        }
        u = u + 1;
    }
    proof {
        assert(quads@.len() <= idx_spec(SIZE as int, 0));
        assert(idx_spec(SIZE as int, 0) == AREA) by (nonlinear_arith)
            requires
                AREA == SIZE * SIZE,
        ;
        assert forall|a: int, b: int|
            0 <= a < SIZE && 0 <= b < SIZE implies (mergeable(
            *reg,
            #[trigger] face_at(s0, a, b),
        ) <==> covered_by(quads@, a, b)) by {
            assert(scanned(a, b, SIZE as int, 0));
            if covered_by(quads@, a, b) {
                let i = choose|i: int| 0 <= i < quads@.len() && covers(quads@[i], a, b);
                assert(quad_matches(s0, *reg, quads@[i]));
                assert(mergeable(*reg, face_at(s0, a, b)));
            }
        }
        assert(quads@ =~= quads@ + spec_merge_from(*reg, slice@, SIZE as int, 0));
    }
    quads
}

} // verus!

verus! {

/// The cell of the center chunk that slice position `(u, v)` of a
/// directional pass at depth `layer` stands for.
pub open spec fn spec_slice_coord(side: Side, layer: int, u: int, v: int) -> (int, int, int) {
    match side {
        Side::Right => (layer, u, v),
        Side::Left => (layer, u, v),
        Side::Top => (u, layer, v),
        Side::Bottom => (u, layer, v),
        Side::Front => (u, v, layer),
        Side::Back => (u, v, layer),
    }
}

/// The face buffer entry for one slice cell: the cell's id and corner
/// shades when its face is visible, else the visited sentinel air face.
pub open spec fn spec_slice_face(
    c: Seq<BlockId>,
    reg: BlockRegistry,
    side: Side,
    layer: int,
    u: int,
    v: int,
) -> VoxelFace {
    let p = spec_slice_coord(side, layer, u, v);
    let x = p.0 + 1;
    let y = p.1 + 1;
    let z = p.2 + 1;
    if spec_visible(c, reg, x, y, z, side) {
        VoxelFace { id: at3(c, x, y, z), ao: spec_face_ao(c, reg, x, y, z, side), visited: false }
    } else {
        VoxelFace { ao: FaceAo(0u8), id: BlockId(0u16), visited: true }
    }
}

/// The whole face buffer of one slice, in linear layout.
pub open spec fn spec_slice(
    c: Seq<BlockId>,
    reg: BlockRegistry,
    side: Side,
    layer: int,
) -> Seq<VoxelFace> {
    Seq::new(
        AREA as nat,
        |i: int| spec_slice_face(c, reg, side, layer, i / (SIZE as int), i % (SIZE as int)),
    )
}

/// Reading one in-plane cell of the canonical slice buffer.
proof fn lemma_spec_slice_at(
    c: Seq<BlockId>,
    reg: BlockRegistry,
    side: Side,
    layer: int,
    u: int,
    v: int,
)
    requires
        0 <= u < SIZE,
        0 <= v < SIZE,
    ensures
        face_at(spec_slice(c, reg, side, layer), u, v) == spec_slice_face(
            c,
            reg,
            side,
            layer,
            u,
            v,
        ),
{
    lemma_idx_bounds(u, v);
    lemma_idx_div(u, v);
}

/// Computes the center-chunk cell a slice position stands for.
fn slice_coord(side: Side, layer: usize, u: usize, v: usize) -> (r: (usize, usize, usize))
    requires
        layer < SIZE,
        u < SIZE,
        v < SIZE,
    ensures
        r.0 as int == spec_slice_coord(side, layer as int, u as int, v as int).0,
        r.1 as int == spec_slice_coord(side, layer as int, u as int, v as int).1,
        r.2 as int == spec_slice_coord(side, layer as int, u as int, v as int).2,
{
    match side {
        Side::Right => (layer, u, v),
        Side::Left => (layer, u, v),
        Side::Top => (u, layer, v),
        Side::Bottom => (u, layer, v),
        Side::Front => (u, v, layer),
        Side::Back => (u, v, layer),
    }
}

/// Rebuilds the reusable face buffer for one slice: every visible cell gets
/// its id and corner shades, every occluded cell the visited sentinel.
pub fn fill_slice(
    slice: &mut Vec<VoxelFace>,
    chunk: &PaddedChunk,
    reg: &BlockRegistry,
    side: Side,
    layer: usize,
)
    requires
        chunk.wf(),
        layer < SIZE,
    ensures
        final(slice)@ == spec_slice(chunk@, *reg, side, layer as int),
        final(slice)@.len() == AREA,
{
    slice.clear();
    let mut u: usize = 0;
    while u < SIZE
        invariant
            chunk.wf(),
            layer < SIZE,
            u <= SIZE,
            slice@.len() == idx_spec(u as int, 0),
            forall|a: int, b: int|
                0 <= a < SIZE && 0 <= b < SIZE && scanned(a, b, u as int, 0)
                    ==> slice@[idx_spec(a, b)] == spec_slice_face(
                    chunk@,
                    *reg,
                    side,
                    layer as int,
                    a,
                    b,
                ),
        decreases SIZE - u,
    {
        let mut v: usize = 0;
        while v < SIZE
            invariant
                chunk.wf(),
                layer < SIZE,
                u < SIZE,
                v <= SIZE,
                slice@.len() == idx_spec(u as int, v as int),
                forall|a: int, b: int|
                    0 <= a < SIZE && 0 <= b < SIZE && scanned(a, b, u as int, v as int)
                        ==> slice@[idx_spec(a, b)] == spec_slice_face(
                        chunk@,
                        *reg,
                        side,
                        layer as int,
                        a,
                        b,
                    ),
            decreases SIZE - v,
        {
            let c: (usize, usize, usize) = slice_coord(side, layer, u, v);
            let x: usize = c.0 + 1;
            let y: usize = c.1 + 1;
            let z: usize = c.2 + 1;
            let ghost pre = slice@;
            if is_not_occluded(chunk, reg, x, y, z, side) {
                let f = VoxelFace {
                    id: chunk.get(x, y, z),
                    ao: face_ao(chunk, reg, x, y, z, side),
                    visited: false,
                };
                slice.push(f);
            } else {
                slice.push(VoxelFace::default());
            }
            proof {
                assert forall|a: int, b: int|
                    0 <= a < SIZE && 0 <= b < SIZE && scanned(a, b, u as int, v as int
                        + 1) implies slice@[idx_spec(a, b)] == spec_slice_face(
                    chunk@,
                    *reg,
                    side,
                    layer as int,
                    a,
                    b,
                ) by {
                    lemma_idx_bounds(a, b);
                    if a == u as int && b == v as int {
                        assert(slice@[idx_spec(a, b)] == slice@[pre.len() as int]);
                    } else {
                        assert(scanned(a, b, u as int, v as int));
                        assert(idx_spec(a, b) < idx_spec(u as int, v as int)) by (nonlinear_arith)
                            requires
                                0 <= a < SIZE,
                                0 <= b < SIZE,
                                0 <= u < SIZE,
                                0 <= v < SIZE,
                                a < u || (a == u && b < v),
                        ;
                        assert(slice@[idx_spec(a, b)] == pre[idx_spec(a, b)]);
                    }
                }
            }
            v = v + 1;
        }
        proof {
            assert(idx_spec(u as int, SIZE as int) == idx_spec(u as int + 1, 0))
                by (nonlinear_arith);
            assert forall|a: int, b: int|
                0 <= a < SIZE && 0 <= b < SIZE && scanned(a, b, u as int + 1, 0) implies slice@[
                idx_spec(a, b)] == spec_slice_face(chunk@, *reg, side, layer as int, a, b) by {
                assert(scanned(a, b, u as int, SIZE as int));
            }
        }
        u = u + 1;
    }
    proof {
        assert(idx_spec(SIZE as int, 0) == AREA) by (nonlinear_arith)
            requires
                AREA == SIZE * SIZE,
        ;
        assert forall|a: int, b: int|
            0 <= a < SIZE && 0 <= b < SIZE implies #[trigger] face_at(slice@, a, b) == face_at(
            spec_slice(chunk@, *reg, side, layer as int),
            a,
            b,
        ) by {
            lemma_spec_slice_at(chunk@, *reg, side, layer as int, a, b);
            assert(scanned(a, b, SIZE as int, 0));
            assert(slice@[idx_spec(a, b)] == spec_slice_face(
                chunk@,
                *reg,
                side,
                layer as int,
                a,
                b,
            ));
        }
        lemma_eq_by_cells(slice@, spec_slice(chunk@, *reg, side, layer as int));
    }
}

} // verus!


use crate::chunk::{make_padded, spec_padded_view, Chunk, Neighborhood};
use crate::mesh::{
    empty_mesh_state, spec_add_liquid, spec_add_terrain, MeshConstructor, MeshError, MeshState,
    TerrainMeshes,
};

verus! {

/// The buffers after emitting the quads of one merged slice from position
/// `i` onward: liquid quads go to the liquid buffer, all others to the
/// terrain buffer, each at its slice cell converted to chunk coordinates.
/// The first missing texture aborts the pass.
pub open spec fn spec_submit_fold(
    s: MeshState,
    reg: BlockRegistry,
    quads: Seq<PlacedQuad>,
    side: Side,
    layer: int,
    i: int,
) -> Result<MeshState, MeshError>
    decreases quads.len() - i,
{
    if i < 0 || i >= quads.len() {
        Ok(s)
    } else {
        let q = quads[i];
        let c = spec_slice_coord(side, layer, q.u as int, q.v as int);
        let step = if reg.spec_liquid(q.quad.id) {
            spec_add_liquid(s, reg, q.quad, side, c.0, c.1, c.2)
        } else {
            spec_add_terrain(s, reg, q.quad, side, c.0, c.1, c.2)
        };
        match step {
            Ok(s2) => spec_submit_fold(s2, reg, quads, side, layer, i + 1),
            Err(e) => Err(e),
        }
    }
}

/// The buffers after scanning and merging every layer of one direction,
/// from `layer` onward.
pub open spec fn spec_mesh_layers(
    s: MeshState,
    c: Seq<BlockId>,
    reg: BlockRegistry,
    side: Side,
    layer: int,
) -> Result<MeshState, MeshError>
    decreases SIZE - layer,
{
    if layer < 0 || layer >= SIZE {
        Ok(s)
    } else {
        let quads = spec_merge_from(reg, spec_slice(c, reg, side, layer), 0, 0);
        match spec_submit_fold(s, reg, quads, side, layer, 0) {
            Ok(s2) => spec_mesh_layers(s2, c, reg, side, layer + 1),
            Err(e) => Err(e),
        }
    }
}

/// The buffers after a whole meshing pass started from `s`: the six
/// directions in their fixed order, each swept layer by layer.
pub open spec fn spec_mesh_from(s: MeshState, c: Seq<BlockId>, reg: BlockRegistry) -> Result<
    MeshState,
    MeshError,
> {
    match spec_mesh_layers(s, c, reg, Side::Right, 0) {
        Err(e) => Err(e),
        Ok(s1) => match spec_mesh_layers(s1, c, reg, Side::Left, 0) {
            Err(e) => Err(e),
            Ok(s2) => match spec_mesh_layers(s2, c, reg, Side::Top, 0) {
                Err(e) => Err(e),
                Ok(s3) => match spec_mesh_layers(s3, c, reg, Side::Bottom, 0) {
                    Err(e) => Err(e),
                    Ok(s4) => match spec_mesh_layers(s4, c, reg, Side::Front, 0) {
                        Err(e) => Err(e),
                        Ok(s5) => spec_mesh_layers(s5, c, reg, Side::Back, 0),
                    },
                },
            },
        },
    }
}

/// The meshing pass as a mathematical function of the padded snapshot's
/// contents and the registry alone: what one pass over empty buffers
/// produces.
pub open spec fn spec_mesh(c: Seq<BlockId>, reg: BlockRegistry) -> Result<MeshState, MeshError> {
    spec_mesh_from(empty_mesh_state(), c, reg)
}

/// Meshing is deterministic: the buffers of a pass are a function of the
/// padded snapshot and the registry, so two passes over the same snapshot
/// yield bit-identical vertex and index buffers, or the same error.
pub proof fn lemma_mesh_deterministic(
    c: Seq<BlockId>,
    reg: BlockRegistry,
    r1: Result<MeshState, MeshError>,
    r2: Result<MeshState, MeshError>,
)
    requires
        r1 == spec_mesh(c, reg),
        r2 == spec_mesh(c, reg),
    ensures
        r1 == r2,
{
}

/// One greedy meshing pass over a padded snapshot: the slice scanner,
/// merger and mesh constructor with their reusable buffers.
pub struct CullMesher<'w> {
    pub registry: &'w BlockRegistry,
    pub center: PaddedChunk,
    pub slice: Vec<VoxelFace>,
    pub mesh_constructor: MeshConstructor,
}

impl<'w> CullMesher<'w> {
    /// A fresh pass over one snapshot: empty output buffers and a slice
    /// buffer of one slice's area.
    pub fn new(registry: &'w BlockRegistry, center: PaddedChunk) -> (r: CullMesher<'w>)
        requires
            center.wf(),
        ensures
            r.registry == registry,
            r.center == center,
            r.center.wf(),
            r.slice@.len() == AREA,
            r.mesh_constructor.wf(),
            r.mesh_constructor.state() == empty_mesh_state(),
    {
        let mut slice: Vec<VoxelFace> = Vec::new();
        let mut i: usize = 0;
        while i < AREA
            invariant
                i <= AREA,
                slice@.len() == i,
            decreases AREA - i,
        {
            slice.push(VoxelFace::default());
            i = i + 1;
        }
        CullMesher { registry, center, slice, mesh_constructor: MeshConstructor::new() }
    }

    /// Merges the filled slice buffer into quads and hands each to the
    /// mesh constructor, liquid and terrain routed separately.  The
    /// outcome is the submission fold over the slice's greedy merge.
    #[verifier::rlimit(100)]
    #[verifier::loop_isolation(false)]
    pub fn submit_quads(&mut self, side: Side, layer: usize) -> (r: Result<(), MeshError>)
        requires
            old(self).center.wf(),
            old(self).slice@.len() == AREA,
            old(self).mesh_constructor.wf(),
            layer < SIZE,
            old(self).mesh_constructor.mesh.terrain.vertices@.len() + 4 * AREA <= u32::MAX,
            old(self).mesh_constructor.mesh.liquid.vertices@.len() + 4 * AREA <= u32::MAX,
        ensures
            final(self).registry == old(self).registry,
            final(self).center == old(self).center,
            final(self).slice@.len() == AREA,
            final(self).mesh_constructor.wf(),
            final(self).mesh_constructor.mesh.terrain.vertices@.len() <= old(
                self,
            ).mesh_constructor.mesh.terrain.vertices@.len() + 4 * AREA,
            final(self).mesh_constructor.mesh.liquid.vertices@.len() <= old(
                self,
            ).mesh_constructor.mesh.liquid.vertices@.len() + 4 * AREA,
            match spec_submit_fold(
                old(self).mesh_constructor.state(),
                *old(self).registry,
                spec_merge_from(*old(self).registry, old(self).slice@, 0, 0),
                side,
                layer as int,
                0,
            ) {
                Ok(s2) => r == Ok::<(), MeshError>(()) && final(self).mesh_constructor.state()
                    == s2,
                Err(e) => r == Err::<(), MeshError>(e),
            },
    {
        let ghost m0 = self.mesh_constructor.state();
        let ghost reg0 = *self.registry;
        let quads: Vec<PlacedQuad> = merge_slice(&mut self.slice, self.registry);
        let ghost qs = quads@;
        let mut k: usize = 0;
        let n: usize = quads.len();
        while k < n
            invariant
                n == qs.len(),
                k <= n,
                qs.len() <= AREA,
                qs == quads@,
                *self.registry == reg0,
                self.registry == old(self).registry,
                self.center == old(self).center,
                self.center.wf(),
                self.slice@.len() == AREA,
                layer < SIZE,
                self.mesh_constructor.wf(),
                forall|i: int| 0 <= i < qs.len() ==> quad_in_bounds(#[trigger] qs[i]),
                self.mesh_constructor.mesh.terrain.vertices@.len() <= old(
                    self,
                ).mesh_constructor.mesh.terrain.vertices@.len() + 4 * k,
                self.mesh_constructor.mesh.liquid.vertices@.len() <= old(
                    self,
                ).mesh_constructor.mesh.liquid.vertices@.len() + 4 * k,
                old(self).mesh_constructor.mesh.terrain.vertices@.len() + 4 * AREA <= u32::MAX,
                old(self).mesh_constructor.mesh.liquid.vertices@.len() + 4 * AREA <= u32::MAX,
                spec_submit_fold(m0, reg0, qs, side, layer as int, 0) == spec_submit_fold(
                    self.mesh_constructor.state(),
                    reg0,
                    qs,
                    side,
                    layer as int,
                    k as int,
                ),
            decreases n - k,
        {
            let q: PlacedQuad = quads[k];
            let c: (usize, usize, usize) = slice_coord(side, layer, q.u, q.v);
            let ghost pre = self.mesh_constructor.state();
            let step: Result<(), MeshError> = if self.registry.liquid(q.quad.id) {
                self.mesh_constructor.add_liquid(self.registry, q.quad, side, c.0, c.1, c.2)
            } else {
                self.mesh_constructor.add_terrain(self.registry, q.quad, side, c.0, c.1, c.2)
            };
            proof {
                let cc = spec_slice_coord(side, layer as int, q.u as int, q.v as int);
                let sstep = if reg0.spec_liquid(q.quad.id) {
                    spec_add_liquid(pre, reg0, q.quad, side, cc.0, cc.1, cc.2)
                } else {
                    spec_add_terrain(pre, reg0, q.quad, side, cc.0, cc.1, cc.2)
                };
                match step {
                    Ok(_) => {
                        assert(sstep == Ok::<MeshState, MeshError>(
                            self.mesh_constructor.state(),
                        ));
                    },
                    Err(e) => {
                        assert(sstep == Err::<MeshState, MeshError>(e));
                        assert(spec_submit_fold(pre, reg0, qs, side, layer as int, k as int)
                            == Err::<MeshState, MeshError>(e));
                        assert(spec_submit_fold(m0, reg0, qs, side, layer as int, 0)
                            == Err::<MeshState, MeshError>(e));
                    },
                }
            }
            if let Err(e) = step {
                return Err(e);
            }
            k = k + 1;
        }
        Ok(())
    }

    /// Sweeps one direction: for each of the `SIZE` layers, rebuilds the
    /// slice buffer and merges and emits its quads.  The outcome is the
    /// layer fold for this side.
    #[verifier::rlimit(100)]
    #[verifier::loop_isolation(false)]
    pub fn mesh_slice(&mut self, side: Side) -> (r: Result<(), MeshError>)
        requires
            old(self).center.wf(),
            old(self).slice@.len() == AREA,
            old(self).mesh_constructor.wf(),
            old(self).mesh_constructor.mesh.terrain.vertices@.len() + 4 * AREA * SIZE
                <= u32::MAX,
            old(self).mesh_constructor.mesh.liquid.vertices@.len() + 4 * AREA * SIZE
                <= u32::MAX,
        ensures
            final(self).registry == old(self).registry,
            final(self).center == old(self).center,
            final(self).slice@.len() == AREA,
            final(self).mesh_constructor.wf(),
            final(self).mesh_constructor.mesh.terrain.vertices@.len() <= old(
                self,
            ).mesh_constructor.mesh.terrain.vertices@.len() + 4 * AREA * SIZE,
            final(self).mesh_constructor.mesh.liquid.vertices@.len() <= old(
                self,
            ).mesh_constructor.mesh.liquid.vertices@.len() + 4 * AREA * SIZE,
            match spec_mesh_layers(
                old(self).mesh_constructor.state(),
                old(self).center@,
                *old(self).registry,
                side,
                0,
            ) {
                Ok(s2) => r == Ok::<(), MeshError>(()) && final(self).mesh_constructor.state()
                    == s2,
                Err(e) => r == Err::<(), MeshError>(e),
            },
    {
        let ghost m0 = self.mesh_constructor.state();
        let ghost reg0 = *self.registry;
        let ghost chunk0 = self.center@;
        let mut layer: usize = 0;
        while layer < SIZE
            invariant
                layer <= SIZE,
                *self.registry == reg0,
                self.registry == old(self).registry,
                self.center == old(self).center,
                self.center@ == chunk0,
                self.center.wf(),
                self.slice@.len() == AREA,
                self.mesh_constructor.wf(),
                self.mesh_constructor.mesh.terrain.vertices@.len() <= old(
                    self,
                ).mesh_constructor.mesh.terrain.vertices@.len() + 4 * AREA * layer,
                self.mesh_constructor.mesh.liquid.vertices@.len() <= old(
                    self,
                ).mesh_constructor.mesh.liquid.vertices@.len() + 4 * AREA * layer,
                old(self).mesh_constructor.mesh.terrain.vertices@.len() + 4 * AREA * SIZE
                    <= u32::MAX,
                old(self).mesh_constructor.mesh.liquid.vertices@.len() + 4 * AREA * SIZE
                    <= u32::MAX,
                spec_mesh_layers(m0, chunk0, reg0, side, 0) == spec_mesh_layers(
                    self.mesh_constructor.state(),
                    chunk0,
                    reg0,
                    side,
                    layer as int,
                ),
            decreases SIZE - layer,
        {
            proof {
                assert(4 * AREA * (layer as int) + 4 * AREA == 4 * AREA * (layer as int + 1))
                    by (nonlinear_arith);
                assert(4 * AREA * (layer as int + 1) <= 4 * AREA * (SIZE as int))
                    by (nonlinear_arith)
                    requires
                        layer as int + 1 <= SIZE as int,
                        AREA >= 0,
                ;
            }
            let center_ref: &PaddedChunk = &self.center;
            fill_slice(&mut self.slice, center_ref, self.registry, side, layer);
            let ghost pre = self.mesh_constructor.state();
            let step: Result<(), MeshError> = self.submit_quads(side, layer);
            proof {
                let quads = spec_merge_from(reg0, spec_slice(chunk0, reg0, side, layer as int), 0, 0);
                match spec_submit_fold(pre, reg0, quads, side, layer as int, 0) {
                    Ok(s2) => {
                        assert(step == Ok::<(), MeshError>(()));
                        assert(self.mesh_constructor.state() == s2);
                    },
                    Err(e) => {
                        assert(spec_mesh_layers(pre, chunk0, reg0, side, layer as int)
                            == Err::<MeshState, MeshError>(e));
                    },
                }
            }
            if let Err(e) = step {
                return Err(e);
            }
            layer = layer + 1;
        }
        Ok(())
    }

    /// One whole meshing pass: the six directions in fixed order.  The
    /// pass runs to completion and its buffers equal the pass fold; the
    /// first missing texture aborts it with that error.
    pub fn mesh(&mut self) -> (r: Result<(), MeshError>)
        requires
            old(self).center.wf(),
            old(self).slice@.len() == AREA,
            old(self).mesh_constructor.wf(),
            old(self).mesh_constructor.mesh.terrain.vertices@.len() + 24 * AREA * SIZE
                <= u32::MAX,
            old(self).mesh_constructor.mesh.liquid.vertices@.len() + 24 * AREA * SIZE
                <= u32::MAX,
        ensures
            final(self).registry == old(self).registry,
            final(self).center == old(self).center,
            final(self).mesh_constructor.wf(),
            match spec_mesh_from(
                old(self).mesh_constructor.state(),
                old(self).center@,
                *old(self).registry,
            ) {
                Ok(s) => r == Ok::<(), MeshError>(()) && final(self).mesh_constructor.state()
                    == s,
                Err(e) => r == Err::<(), MeshError>(e),
            },
    {
        proof {
            assert(4 * AREA * SIZE + 4 * AREA * SIZE + 4 * AREA * SIZE + 4 * AREA * SIZE + 4
                * AREA * SIZE + 4 * AREA * SIZE == 24 * AREA * SIZE) by (nonlinear_arith);
        }
        let r1: Result<(), MeshError> = self.mesh_slice(Side::Right);
        if let Err(e) = r1 {
            return Err(e);
        }
        let r2: Result<(), MeshError> = self.mesh_slice(Side::Left);
        if let Err(e) = r2 {
            return Err(e);
        }
        let r3: Result<(), MeshError> = self.mesh_slice(Side::Top);
        if let Err(e) = r3 {
            return Err(e);
        }
        let r4: Result<(), MeshError> = self.mesh_slice(Side::Bottom);
        if let Err(e) = r4 {
            return Err(e);
        }
        let r5: Result<(), MeshError> = self.mesh_slice(Side::Front);
        if let Err(e) = r5 {
            return Err(e);
        }
        let r6: Result<(), MeshError> = self.mesh_slice(Side::Back);
        if let Err(e) = r6 {
            return Err(e);
        }
        Ok(())
    }
}

/// Meshes one chunk from its neighborhood: builds the padded snapshot,
/// runs a full pass, and returns the two buffers, or the configuration
/// error that aborted the pass.
pub fn mesh_chunk(registry: &BlockRegistry, n: &Neighborhood<Chunk>) -> (r: Result<
    TerrainMeshes,
    MeshError,
>)
    requires
        n.wf(),
    ensures
        match spec_mesh(spec_padded_view(*n), *registry) {
            Ok(s) => r matches Ok(m) && m.state() == s,
            Err(e) => r == Err::<TerrainMeshes, MeshError>(e),
        },
{
    let padded: PaddedChunk = make_padded(n);
    let mut mesher: CullMesher = CullMesher::new(registry, padded);
    let outcome: Result<(), MeshError> = mesher.mesh();
    match outcome {
        Ok(()) => Ok(mesher.mesh_constructor.mesh),
        Err(e) => Err(e),
    }
}

} // verus!

verus! {

/// Coverage at the slice level: a filled slice buffer holds a coverable
/// face at exactly the cells whose faces the occlusion rule makes
/// visible.  Together with the merger's contract, the merged quads of a
/// slice partition its visible faces: no overlap and no omission.
pub proof fn lemma_slice_coverage(
    c: Seq<BlockId>,
    reg: BlockRegistry,
    side: Side,
    layer: int,
    u: int,
    v: int,
)
    requires
        0 <= u < SIZE,
        0 <= v < SIZE,
    ensures
        mergeable(reg, face_at(spec_slice(c, reg, side, layer), u, v)) <==> spec_visible(
            c,
            reg,
            spec_slice_coord(side, layer, u, v).0 + 1,
            spec_slice_coord(side, layer, u, v).1 + 1,
            spec_slice_coord(side, layer, u, v).2 + 1,
            side,
        ),
{
    lemma_spec_slice_at(c, reg, side, layer, u, v);
}

} // verus!

verus! {

/// Whether every quad the greedy merger produces for one slice finds its
/// texture for that side.
pub open spec fn layer_textured(
    c: Seq<BlockId>,
    reg: BlockRegistry,
    side: Side,
    layer: int,
) -> bool {
    forall|j: int|
        0 <= j < spec_merge_from(reg, spec_slice(c, reg, side, layer), 0, 0).len()
            ==> reg.spec_texture(
            (#[trigger] spec_merge_from(reg, spec_slice(c, reg, side, layer), 0, 0)[j]).quad.id,
            side,
        ) is Some
}

/// Success is owed quad by quad: the submission fold of a slice succeeds
/// exactly when every remaining quad's block has a texture registered for
/// the slice's side, whatever buffers it started from.
pub proof fn lemma_submit_fold_ok(
    s: MeshState,
    reg: BlockRegistry,
    quads: Seq<PlacedQuad>,
    side: Side,
    layer: int,
    i: int,
)
    requires
        0 <= i,
    ensures
        (spec_submit_fold(s, reg, quads, side, layer, i) is Ok) <==> (forall|j: int|
            i <= j < quads.len() ==> reg.spec_texture((#[trigger] quads[j]).quad.id, side)
                is Some),
    decreases quads.len() - i,
{
    if i >= quads.len() {
    } else {
        let q = quads[i];
        let c = spec_slice_coord(side, layer, q.u as int, q.v as int);
        let step = if reg.spec_liquid(q.quad.id) {
            spec_add_liquid(s, reg, q.quad, side, c.0, c.1, c.2)
        } else {
            spec_add_terrain(s, reg, q.quad, side, c.0, c.1, c.2)
        };
        match step {
            Ok(s2) => {
                lemma_submit_fold_ok(s2, reg, quads, side, layer, i + 1);
                assert(reg.spec_texture(quads[i].quad.id, side) is Some);
            },
            Err(_) => {
                assert(reg.spec_texture(quads[i].quad.id, side) is None);
            },
        }
    }
}

/// Success is owed layer by layer: sweeping one direction succeeds
/// exactly when every remaining layer's quads all find their textures.
pub proof fn lemma_mesh_layers_ok(
    s: MeshState,
    c: Seq<BlockId>,
    reg: BlockRegistry,
    side: Side,
    layer: int,
)
    requires
        0 <= layer,
    ensures
        (spec_mesh_layers(s, c, reg, side, layer) is Ok) <==> (forall|l: int|
            layer <= l < SIZE ==> #[trigger] layer_textured(c, reg, side, l)),
    decreases SIZE - layer,
{
    if layer >= SIZE {
    } else {
        let quads = spec_merge_from(reg, spec_slice(c, reg, side, layer), 0, 0);
        lemma_submit_fold_ok(s, reg, quads, side, layer, 0);
        match spec_submit_fold(s, reg, quads, side, layer, 0) {
            Ok(s2) => {
                lemma_mesh_layers_ok(s2, c, reg, side, layer + 1);
                assert(layer_textured(c, reg, side, layer));
            },
            Err(_) => {
                assert(!layer_textured(c, reg, side, layer));
            },
        }
    }
}

/// Success is owed for the whole pass: it produces buffers exactly when
/// every merged quad of every slice of all six directions finds its
/// texture, and otherwise reports the first missing one.
pub proof fn lemma_mesh_ok(s: MeshState, c: Seq<BlockId>, reg: BlockRegistry)
    ensures
        (spec_mesh_from(s, c, reg) is Ok) <==> (forall|side: Side, l: int|
            0 <= l < SIZE ==> #[trigger] layer_textured(c, reg, side, l)),
{
    lemma_mesh_layers_ok(s, c, reg, Side::Right, 0);
    if spec_mesh_layers(s, c, reg, Side::Right, 0) is Ok {
        let s1 = spec_mesh_layers(s, c, reg, Side::Right, 0)->Ok_0;
        lemma_mesh_layers_ok(s1, c, reg, Side::Left, 0);
        if spec_mesh_layers(s1, c, reg, Side::Left, 0) is Ok {
            let s2 = spec_mesh_layers(s1, c, reg, Side::Left, 0)->Ok_0;
            lemma_mesh_layers_ok(s2, c, reg, Side::Top, 0);
            if spec_mesh_layers(s2, c, reg, Side::Top, 0) is Ok {
                let s3 = spec_mesh_layers(s2, c, reg, Side::Top, 0)->Ok_0;
                lemma_mesh_layers_ok(s3, c, reg, Side::Bottom, 0);
                if spec_mesh_layers(s3, c, reg, Side::Bottom, 0) is Ok {
                    let s4 = spec_mesh_layers(s3, c, reg, Side::Bottom, 0)->Ok_0;
                    lemma_mesh_layers_ok(s4, c, reg, Side::Front, 0);
                    if spec_mesh_layers(s4, c, reg, Side::Front, 0) is Ok {
                        let s5 = spec_mesh_layers(s4, c, reg, Side::Front, 0)->Ok_0;
                        lemma_mesh_layers_ok(s5, c, reg, Side::Back, 0);
                        if spec_mesh_layers(s5, c, reg, Side::Back, 0) is Ok {
                            assert forall|side: Side, l: int|
                                0 <= l < SIZE implies #[trigger] layer_textured(
                                c,
                                reg,
                                side,
                                l,
                            ) by {
                                match side {
                                    Side::Right => {},
                                    Side::Left => {},
                                    Side::Top => {},
                                    Side::Bottom => {},
                                    Side::Front => {},
                                    Side::Back => {},
                                }
                            }
                        }
                    }
                }
            }
        }
    }
}

} // verus!
