//! Chunks, the six-neighbor chunk set, and the padded one-cell-halo snapshot
//! that a meshing pass reads.

use crate::block::BlockId;
use crate::{PAD, PAD_VOLUME, SIZE, VOLUME};
use vstd::prelude::*;

verus! {

/// Linear index of a cell inside a chunk.
pub open spec fn chunk_index(x: int, y: int, z: int) -> int {
    x * (SIZE * SIZE) + y * SIZE + z
}

/// Linear index of a cell inside a padded chunk.
pub open spec fn pad_index(x: int, y: int, z: int) -> int {
    x * (PAD * PAD) + y * PAD + z
}

/// True when a coordinate lies outside the chunk's own range.
pub open spec fn out_of_chunk(c: int) -> bool {
    c < 0 || c >= SIZE
}

/// A fixed-size cube of `SIZE³` block ids.
#[derive(Clone, Debug)]
pub struct Chunk {
    data: Vec<BlockId>,
}

impl View for Chunk {
    type V = Seq<BlockId>;

    closed spec fn view(&self) -> Seq<BlockId> {
        self.data@
    }
}

impl Chunk {
    pub open spec fn wf(&self) -> bool {
        self@.len() == VOLUME
    }

    /// The block id stored at a cell, as a mathematical value.
    pub open spec fn spec_at(&self, x: int, y: int, z: int) -> BlockId {
        self@[chunk_index(x, y, z)]
    }

    /// Wraps a full voxel array, laid out x-major then y then z.
    pub fn new(data: Vec<BlockId>) -> (r: Chunk)
        requires
            data@.len() == VOLUME,
        ensures
            r.wf(),
            r@ == data@,
    {
        Chunk { data }
    }

    /// A uniform chunk holding the same block id in every cell.
    pub fn homogeneous(id: BlockId) -> (r: Chunk)
        ensures
            r.wf(),
            forall|x: int, y: int, z: int|
                0 <= x < SIZE && 0 <= y < SIZE && 0 <= z < SIZE ==> r.spec_at(x, y, z) == id,
    {
        let mut data: Vec<BlockId> = Vec::new();
        let mut i: usize = 0;
        while i < VOLUME
            invariant
                i <= VOLUME,
                data@.len() == i,
                forall|j: int| 0 <= j < i ==> data@[j] == id,
            decreases VOLUME - i,
        {
            data.push(id);
            i = i + 1;
        }
        Chunk { data }
    }

    /// Reads one cell of the chunk.
    pub fn get(&self, x: usize, y: usize, z: usize) -> (r: BlockId)
        requires
            self.wf(),
            x < SIZE,
            y < SIZE,
            z < SIZE,
        ensures
            r == self.spec_at(x as int, y as int, z as int),
    {
        let i: usize = x * (SIZE * SIZE) + y * SIZE + z;
        self.data[i]
    }
}

/// A chunk together with its six face-adjacent neighbor chunks.
pub struct Neighborhood<T> {
    pub center: T,
    pub top: T,
    pub bottom: T,
    pub left: T,
    pub right: T,
    pub front: T,
    pub back: T,
}

impl Neighborhood<Chunk> {
    pub open spec fn wf(&self) -> bool {
        &&& self.center.wf()
        &&& self.top.wf()
        &&& self.bottom.wf()
        &&& self.left.wf()
        &&& self.right.wf()
        &&& self.front.wf()
        &&& self.back.wf()
    }

    /// The block id a coordinate resolves to: the center chunk inside its
    /// bounds, or the matching neighbor's wrapped cell when exactly one axis
    /// is one cell out of range.
    pub open spec fn spec_sample(&self, x: int, y: int, z: int) -> BlockId {
        if 0 <= x < SIZE && 0 <= y < SIZE && 0 <= z < SIZE {
            self.center.spec_at(x, y, z)
        } else if x >= SIZE {
            self.right.spec_at(x - SIZE, y, z)
        } else if x < 0 {
            self.left.spec_at(x + SIZE, y, z)
        } else if y >= SIZE {
            self.top.spec_at(x, y - SIZE, z)
        } else if y < 0 {
            self.bottom.spec_at(x, y + SIZE, z)
        } else if z >= SIZE {
            self.front.spec_at(x, y, z - SIZE)
        } else {
            self.back.spec_at(x, y, z + SIZE)
        }
    }

    /// Resolves a coordinate at most one cell outside the center chunk to
    /// the chunk that stores it.  Coordinates further out than the one-cell
    /// halo, or out on more than one axis, are a caller contract breach and
    /// are excluded rather than silently wrapped around.
    pub fn get(&self, x: i32, y: i32, z: i32) -> (r: Option<BlockId>)
        requires
            self.wf(),
            -1 <= x <= SIZE,
            -1 <= y <= SIZE,
            -1 <= z <= SIZE,
            !(out_of_chunk(x as int) && out_of_chunk(y as int)),
            !(out_of_chunk(x as int) && out_of_chunk(z as int)),
            !(out_of_chunk(y as int) && out_of_chunk(z as int)),
        ensures
            r == Some(self.spec_sample(x as int, y as int, z as int)),
    {
        let s: i32 = SIZE as i32;
        if 0 <= x && x < s && 0 <= y && y < s && 0 <= z && z < s {
            Some(self.center.get(x as usize, y as usize, z as usize))
        } else if x >= s {
            Some(self.right.get((x - s) as usize, y as usize, z as usize))
        } else if x < 0 {
            Some(self.left.get((x + s) as usize, y as usize, z as usize))
        } else if y >= s {
            Some(self.top.get(x as usize, (y - s) as usize, z as usize))
        } else if y < 0 {
            Some(self.bottom.get(x as usize, (y + s) as usize, z as usize))
        } else if z >= s {
            Some(self.front.get(x as usize, y as usize, (z - s) as usize))
        } else {
            Some(self.back.get(x as usize, y as usize, (z + s) as usize))
        }
    }
}

/// What one cell of the padded volume holds.  Padded coordinate `c` stands
/// for center-chunk coordinate `c - 1`.  Interior cells and single-axis halo
/// cells come from the neighborhood; halo cells out of range on two or three
/// axes are never read by a meshing pass that keeps to face-adjacent
/// samples, and hold empty air.
pub open spec fn spec_padded_sample(n: Neighborhood<Chunk>, x: int, y: int, z: int) -> BlockId {
    let cx = x - 1;
    let cy = y - 1;
    let cz = z - 1;
    if (out_of_chunk(cx) && out_of_chunk(cy)) || (out_of_chunk(cx) && out_of_chunk(cz)) || (
    out_of_chunk(cy) && out_of_chunk(cz)) {
        BlockId(0)
    } else {
        n.spec_sample(cx, cy, cz)
    }
}

/// The x coordinate a linear padded index decomposes to.
pub open spec fn lin_x(i: int) -> int {
    i / ((PAD * PAD) as int)
}

/// The y coordinate a linear padded index decomposes to.
pub open spec fn lin_y(i: int) -> int {
    (i / (PAD as int)) % (PAD as int)
}

/// The z coordinate a linear padded index decomposes to.
pub open spec fn lin_z(i: int) -> int {
    i % (PAD as int)
}

/// The padded snapshot's whole contents as a function of the neighborhood:
/// cell `(x, y, z)` at linear index `pad_index(x, y, z)`.
pub open spec fn spec_padded_view(n: Neighborhood<Chunk>) -> Seq<BlockId> {
    Seq::new(PAD_VOLUME as nat, |i: int| spec_padded_sample(n, lin_x(i), lin_y(i), lin_z(i)))
}

/// Every linear padded index decomposes to in-range coordinates that index
/// back to it.
proof fn lemma_pad_linear_decompose(i: int)
    requires
        0 <= i < PAD_VOLUME,
    ensures
        0 <= lin_x(i) < PAD,
        0 <= lin_y(i) < PAD,
        0 <= lin_z(i) < PAD,
        pad_index(lin_x(i), lin_y(i), lin_z(i)) == i,
{
    let p: int = PAD as int;
    let p2: int = (PAD * PAD) as int;
    assert(p2 == p * p) by (nonlinear_arith)
        requires
            p == PAD,
            p2 == (PAD * PAD) as int,
            PAD == 18,
    ;
    assert(PAD_VOLUME == p2 * p) by (nonlinear_arith)
        requires
            PAD == 18,
            p == 18,
            p2 == 324,
            PAD_VOLUME == PAD * PAD * PAD,
    ;
    vstd::arithmetic::div_mod::lemma_fundamental_div_mod(i, p2);
    vstd::arithmetic::div_mod::lemma_mod_bound(i, p2);
    let x = i / p2;
    let r = i % p2;
    assert(0 <= x < p) by (nonlinear_arith)
        requires
            i == p2 * x + r,
            0 <= r < p2,
            0 <= i < 5832,
            p2 == 324,
            p == 18,
    ;
    vstd::arithmetic::div_mod::lemma_fundamental_div_mod(i, p);
    vstd::arithmetic::div_mod::lemma_mod_bound(i, p);
    let xy = i / p;
    let z = i % p;
    vstd::arithmetic::div_mod::lemma_fundamental_div_mod(xy, p);
    vstd::arithmetic::div_mod::lemma_mod_bound(xy, p);
    let y = xy % p;
    assert(0 <= p * y + z < p2) by (nonlinear_arith)
        requires
            0 <= y < p,
            0 <= z < p,
            p2 == p * p,
    ;
    assert(i == p2 * (xy / p) + (p * y + z)) by (nonlinear_arith)
        requires
            i == p * xy + z,
            xy == p * (xy / p) + y,
            p2 == p * p,
    ;
    vstd::arithmetic::div_mod::lemma_fundamental_div_mod_converse(i, p2, xy / p, p * y + z);
    assert(xy / p == x);
    assert(pad_index(x, y, z) == i) by (nonlinear_arith)
        requires
            pad_index(x, y, z) == x * ((PAD * PAD) as int) + y * (PAD as int) + z,
            i == p2 * x + (p * y + z),
            p2 == (PAD * PAD) as int,
            p == PAD as int,
    ;
}

/// An immutable `(SIZE+2)³` snapshot: the center chunk plus a one-cell halo
/// sampled from the six neighbor chunks, so boundary queries never
/// special-case.  It is rebuilt for each meshing pass and owned by it.
#[derive(Clone, Debug)]
pub struct PaddedChunk {
    data: Vec<BlockId>,
}

impl View for PaddedChunk {
    type V = Seq<BlockId>;

    closed spec fn view(&self) -> Seq<BlockId> {
        self.data@
    }
}

impl PaddedChunk {
    pub open spec fn wf(&self) -> bool {
        self@.len() == PAD_VOLUME
    }

    /// The block id at a padded coordinate, as a mathematical value.
    pub open spec fn spec_at(&self, x: int, y: int, z: int) -> BlockId {
        self@[pad_index(x, y, z)]
    }

    /// Reads one cell of the padded volume.
    pub fn get(&self, x: usize, y: usize, z: usize) -> (r: BlockId)
        requires
            self.wf(),
            x < PAD,
            y < PAD,
            z < PAD,
        ensures
            r == self.spec_at(x as int, y as int, z as int),
    {
        let i: usize = x * (PAD * PAD) + y * PAD + z;
        self.data[i]
    }
}

/// Reads the cell a padded coordinate resolves to, straight from the
/// neighborhood.
fn padded_sample(n: &Neighborhood<Chunk>, x: usize, y: usize, z: usize) -> (r: BlockId)
    requires
        n.wf(),
        x < PAD,
        y < PAD,
        z < PAD,
    ensures
        r == spec_padded_sample(*n, x as int, y as int, z as int),
{
    let xo: bool = x == 0 || x == SIZE + 1;
    let yo: bool = y == 0 || y == SIZE + 1;
    let zo: bool = z == 0 || z == SIZE + 1;
    if (xo && yo) || (xo && zo) || (yo && zo) {
        BlockId(0)
    } else if x == SIZE + 1 {
        n.right.get(0, y - 1, z - 1)
    } else if x == 0 {
        n.left.get(SIZE - 1, y - 1, z - 1)
    } else if y == SIZE + 1 {
        n.top.get(x - 1, 0, z - 1)
    } else if y == 0 {
        n.bottom.get(x - 1, SIZE - 1, z - 1)
    } else if z == SIZE + 1 {
        n.front.get(x - 1, y - 1, 0)
    } else if z == 0 {
        n.back.get(x - 1, y - 1, SIZE - 1)
    } else {
        n.center.get(x - 1, y - 1, z - 1)
    }
}

/// True when `(a, b, c)` is filled before `(x, y, z)` in x-major, then y,
/// then z order.
pub open spec fn lex_before(a: int, b: int, c: int, x: int, y: int, z: int) -> bool {
    a < x || (a == x && (b < y || (b == y && c < z)))
}

/// Fill order is strictly increasing in the linear index: a cell filled
/// earlier has a smaller index than the cell being filled now.
proof fn lemma_pad_index_lex(a: int, b: int, c: int, x: int, y: int, z: int)
    requires
        0 <= a < PAD,
        0 <= b < PAD,
        0 <= c < PAD,
        0 <= x,
        0 <= y,
        0 <= z,
        lex_before(a, b, c, x, y, z),
    ensures
        pad_index(a, b, c) < pad_index(x, y, z),
    decreases 0int,
{
    assert(pad_index(a, b, c) < pad_index(x, y, z)) by (nonlinear_arith)
        requires
            0 <= a < PAD,
            0 <= b < PAD,
            0 <= c < PAD,
            0 <= x,
            0 <= y,
            0 <= z,
            lex_before(a, b, c, x, y, z),
    ;
}

/// Builds the padded snapshot of a neighborhood.  Every padded cell holds
/// the block id its coordinate resolves to.
pub fn make_padded(n: &Neighborhood<Chunk>) -> (r: PaddedChunk)
    requires
        n.wf(),
    ensures
        r.wf(),
        r@ == spec_padded_view(*n),
        forall|x: int, y: int, z: int|
            0 <= x < PAD && 0 <= y < PAD && 0 <= z < PAD ==> r.spec_at(x, y, z)
                == spec_padded_sample(*n, x, y, z),
{
    let mut data: Vec<BlockId> = Vec::new();
    let mut x: usize = 0;
    while x < PAD
        invariant
            n.wf(),
            x <= PAD,
            data@.len() == pad_index(x as int, 0, 0),
            forall|a: int, b: int, c: int|
                0 <= a < PAD && 0 <= b < PAD && 0 <= c < PAD && lex_before(
                    a,
                    b,
                    c,
                    x as int,
                    0,
                    0,
                ) ==> data@[pad_index(a, b, c)] == spec_padded_sample(*n, a, b, c),
        decreases PAD - x,
    {
        let mut y: usize = 0;
        while y < PAD
            invariant
                n.wf(),
                x < PAD,
                y <= PAD,
                data@.len() == pad_index(x as int, y as int, 0),
                forall|a: int, b: int, c: int|
                    0 <= a < PAD && 0 <= b < PAD && 0 <= c < PAD && lex_before(
                        a,
                        b,
                        c,
                        x as int,
                        y as int,
                        0,
                    ) ==> data@[pad_index(a, b, c)] == spec_padded_sample(*n, a, b, c),
            decreases PAD - y,
        {
            let mut z: usize = 0;
            while z < PAD
                invariant
                    n.wf(),
                    x < PAD,
                    y < PAD,
                    z <= PAD,
                    data@.len() == pad_index(x as int, y as int, z as int),
                    forall|a: int, b: int, c: int|
                        0 <= a < PAD && 0 <= b < PAD && 0 <= c < PAD && lex_before(
                            a,
                            b,
                            c,
                            x as int,
                            y as int,
                            z as int,
                        ) ==> data@[pad_index(a, b, c)] == spec_padded_sample(*n, a, b, c),
                decreases PAD - z,
            {
                let v: BlockId = padded_sample(n, x, y, z);
                let ghost pre = data@;
                data.push(v);
                proof {
                    assert forall|a: int, b: int, c: int|
                        0 <= a < PAD && 0 <= b < PAD && 0 <= c < PAD && lex_before(
                            a,
                            b,
                            c,
                            x as int,
                            y as int,
                            z as int + 1,
                        ) implies data@[pad_index(a, b, c)] == spec_padded_sample(*n, a, b, c) by {
                        if a == x as int && b == y as int && c == z as int {
                            assert(data@[pad_index(a, b, c)] == v);
                        } else {
                            lemma_pad_index_lex(a, b, c, x as int, y as int, z as int);
                            assert(data@[pad_index(a, b, c)] == pre[pad_index(a, b, c)]);
                        }
                    }
                }
                z = z + 1;
            }
            proof {
                assert(pad_index(x as int, y as int, PAD as int) == pad_index(
                    x as int,
                    y as int + 1,
                    0,
                )) by (nonlinear_arith);
                assert forall|a: int, b: int, c: int|
                    0 <= a < PAD && 0 <= b < PAD && 0 <= c < PAD && lex_before(
                        a,
                        b,
                        c,
                        x as int,
                        y as int + 1,
                        0,
                    ) implies data@[pad_index(a, b, c)] == spec_padded_sample(*n, a, b, c) by {
                    assert(lex_before(a, b, c, x as int, y as int, PAD as int));
                }
            }
            y = y + 1;
        }
        proof {
            assert(pad_index(x as int, PAD as int, 0) == pad_index(x as int + 1, 0, 0))
                by (nonlinear_arith);
            assert forall|a: int, b: int, c: int|
                0 <= a < PAD && 0 <= b < PAD && 0 <= c < PAD && lex_before(
                    a,
                    b,
                    c,
                    x as int + 1,
                    0,
                    0,
                ) implies data@[pad_index(a, b, c)] == spec_padded_sample(*n, a, b, c) by {
                assert(lex_before(a, b, c, x as int, PAD as int, 0));
            }
        }
        x = x + 1;
    }
    proof {
        assert(pad_index(PAD as int, 0, 0) == PAD_VOLUME) by (nonlinear_arith)
            requires
                PAD_VOLUME == PAD * PAD * PAD,
        ;
        assert forall|i: int| 0 <= i < PAD_VOLUME implies data@[i] == spec_padded_view(*n)[i] by {
            lemma_pad_linear_decompose(i);
            assert(lex_before(lin_x(i), lin_y(i), lin_z(i), PAD as int, 0, 0));
            assert(data@[pad_index(lin_x(i), lin_y(i), lin_z(i))] == spec_padded_sample(
                *n,
                lin_x(i),
                lin_y(i),
                lin_z(i),
            ));
        }
        assert(data@ =~= spec_padded_view(*n));
    }
    PaddedChunk { data }
}

} // verus!
