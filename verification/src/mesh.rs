//! The mesh constructor: winding tables, UV-orientation variants, and the
//! emission of four vertices and six indices per accepted quad into the
//! terrain and liquid output buffers.
//!
//! Vertices carry integer cell coordinates local to the meshed chunk; the
//! embedding application translates them into world space and converts to
//! its GPU vertex format.  The per-corner shade is the raw value in 0..=3;
//! dividing by 3 yields the conventional shading scalar.

use crate::ao::FaceAo;
use crate::block::{BlockId, BlockRegistry, Side};
use crate::mesher::VoxelQuad;
use crate::SIZE;
use vstd::prelude::*;

verus! {

/// A configuration error: the registry has no texture for a block type
/// that reached emission on the given side.
#[derive(Clone, Copy, PartialEq, Eq, Structural, Debug)]
pub enum MeshError {
    MissingTexture { id: BlockId, side: Side },
}

/// One vertex of the opaque terrain buffer.
#[derive(Clone, Copy, PartialEq, Eq, Structural, Hash, Debug)]
pub struct TerrainVertex {
    pub pos_x: u32,
    pub pos_y: u32,
    pub pos_z: u32,
    pub uv_u: u32,
    pub uv_v: u32,
    pub norm_x: i32,
    pub norm_y: i32,
    pub norm_z: i32,
    pub tex_id: u16,
    pub ao: u8,
}

/// One vertex of the liquid buffer; liquid carries no corner shading.
#[derive(Clone, Copy, PartialEq, Eq, Structural, Hash, Debug)]
pub struct LiquidVertex {
    pub pos_x: u32,
    pub pos_y: u32,
    pub pos_z: u32,
    pub uv_u: u32,
    pub uv_v: u32,
    pub norm_x: i32,
    pub norm_y: i32,
    pub norm_z: i32,
    pub tex_id: u16,
}

/// A growable vertex and index buffer pair, ready for upload as one mesh.
#[derive(Clone, Debug)]
pub struct MeshBuffer<V> {
    pub vertices: Vec<V>,
    pub indices: Vec<u32>,
}

/// The two independent output buffers of one meshing pass.
#[derive(Clone, Debug)]
pub struct TerrainMeshes {
    pub terrain: MeshBuffer<TerrainVertex>,
    pub liquid: MeshBuffer<LiquidVertex>,
}

/// Winding orientation of a side: `Bottom`, `Front` and `Left` wind
/// clockwise, the others counterclockwise, reflecting the outward normal.
pub open spec fn spec_clockwise(side: Side) -> bool {
    match side {
        Side::Top => false,
        Side::Bottom => true,
        Side::Front => true,
        Side::Back => false,
        Side::Right => false,
        Side::Left => true,
    }
}

/// The six indices of a quad's two triangles, relative to its four
/// vertices, chosen by diagonal split and winding orientation.
pub open spec fn spec_quad_indices(flipped: bool, clockwise: bool) -> Seq<u32> {
    if flipped {
        if clockwise {
            seq![0u32, 1u32, 2u32, 3u32, 2u32, 1u32]
        } else {
            seq![2u32, 1u32, 0u32, 1u32, 2u32, 3u32]
        }
    } else {
        if clockwise {
            seq![3u32, 2u32, 0u32, 0u32, 1u32, 3u32]
        } else {
            seq![0u32, 2u32, 3u32, 3u32, 1u32, 0u32]
        }
    }
}

/// Whether the quad's diagonal split is flipped: the (pos,pos)+(neg,neg)
/// diagonal is brighter than the (pos,neg)+(neg,pos) one, so the split
/// runs along the other diagonal to avoid pinching the shading.
pub open spec fn spec_flipped(ao: FaceAo) -> bool {
    ao.spec_corner(6) as int + ao.spec_corner(2) as int > ao.spec_corner(4) as int
        + ao.spec_corner(0) as int
}

/// One corner of a UV-orientation variant: variant 0 is canonical, the
/// other three are its 90-degree rotations and reflections, used to break
/// up texture tiling.
pub open spec fn spec_uv_corner(variant: int, k: int) -> (int, int) {
    if variant == 0 {
        if k == 0 {
            (0int, 0int)
        } else if k == 1 {
            (1int, 0int)
        } else if k == 2 {
            (0int, 1int)
        } else {
            (1int, 1int)
        }
    } else if variant == 1 {
        if k == 0 {
            (1int, 0int)
        } else if k == 1 {
            (1int, 1int)
        } else if k == 2 {
            (0int, 0int)
        } else {
            (0int, 1int)
        }
    } else if variant == 2 {
        if k == 0 {
            (1int, 1int)
        } else if k == 1 {
            (0int, 1int)
        } else if k == 2 {
            (1int, 0int)
        } else {
            (0int, 0int)
        }
    } else {
        if k == 0 {
            (0int, 1int)
        } else if k == 1 {
            (0int, 0int)
        } else if k == 2 {
            (1int, 1int)
        } else {
            (1int, 0int)
        }
    }
}

/// Reads one corner of a UV-orientation variant.
pub fn uv_variant_corner(variant: usize, k: usize) -> (r: (u8, u8))
    requires
        variant < 4,
        k < 4,
    ensures
        r.0 as int == spec_uv_corner(variant as int, k as int).0,
        r.1 as int == spec_uv_corner(variant as int, k as int).1,
{
    let table: [u8; 32] = [
        0, 0, 1, 0, 0, 1, 1, 1, 1, 0, 1, 1, 0, 0, 0, 1, 1, 1, 0, 1, 1, 0, 0, 0, 0, 1, 0, 0, 1, 1,
        1, 0,
    ];
    let i: usize = 8 * variant + 2 * k;
    (table[i], table[i + 1])
}

/// Relies on rand::random_range: a value sampled from the given range, so
/// always below 4.  Nothing more is promised of a random draw.
#[verifier::external_body]
fn random_uv_choice() -> (r: usize)
    ensures
        r < 4,
{
    rand::random_range(0usize..4)
}

/// Picks the UV-orientation variant for a quad: the canonical variant when
/// randomization is disabled, else a random one of the four, seeded
/// per call.  Deterministic meshing disables randomization.
pub fn select_uv_variant(random: bool) -> (r: usize)
    ensures
        r < 4,
        !random ==> r == 0,
{
    if random {
        random_uv_choice()
    } else {
        0
    }
}

/// The four terrain vertices of a quad on a side, in emission order, at
/// chunk-local origin `(x, y, z)` with the canonical UV variant.
pub open spec fn spec_terrain_vertices(
    quad: VoxelQuad,
    side: Side,
    x: int,
    y: int,
    z: int,
    tex: u16,
) -> Seq<TerrainVertex> {
    let w = quad.width as int;
    let h = quad.height as int;
    let hoff: int = if side.spec_facing_positive() {
        1
    } else {
        0
    };
    let nx = side.spec_normal().0 as i32;
    let ny = side.spec_normal().1 as i32;
    let nz = side.spec_normal().2 as i32;
    let ao_pp = quad.ao.spec_corner(6);
    let ao_pn = quad.ao.spec_corner(4);
    let ao_nn = quad.ao.spec_corner(2);
    let ao_np = quad.ao.spec_corner(0);
    match side {
        Side::Left | Side::Right => seq![
            TerrainVertex {
                pos_x: (x + hoff) as u32,
                pos_y: (y + w) as u32,
                pos_z: z as u32,
                uv_u: 0,
                uv_v: 0,
                norm_x: nx,
                norm_y: ny,
                norm_z: nz,
                tex_id: tex,
                ao: ao_pn,
            },
            TerrainVertex {
                pos_x: (x + hoff) as u32,
                pos_y: (y + w) as u32,
                pos_z: (z + h) as u32,
                uv_u: h as u32,
                uv_v: 0,
                norm_x: nx,
                norm_y: ny,
                norm_z: nz,
                tex_id: tex,
                ao: ao_pp,
            },
            TerrainVertex {
                pos_x: (x + hoff) as u32,
                pos_y: y as u32,
                pos_z: z as u32,
                uv_u: 0,
                uv_v: w as u32,
                norm_x: nx,
                norm_y: ny,
                norm_z: nz,
                tex_id: tex,
                ao: ao_nn,
            },
            TerrainVertex {
                pos_x: (x + hoff) as u32,
                pos_y: y as u32,
                pos_z: (z + h) as u32,
                uv_u: h as u32,
                uv_v: w as u32,
                norm_x: nx,
                norm_y: ny,
                norm_z: nz,
                tex_id: tex,
                ao: ao_np,
            },
        ],
        Side::Top | Side::Bottom => seq![
            TerrainVertex {
                pos_x: x as u32,
                pos_y: (y + hoff) as u32,
                pos_z: (z + h) as u32,
                uv_u: 0,
                uv_v: 0,
                norm_x: nx,
                norm_y: ny,
                norm_z: nz,
                tex_id: tex,
                ao: ao_pn,
            },
            TerrainVertex {
                pos_x: (x + w) as u32,
                pos_y: (y + hoff) as u32,
                pos_z: (z + h) as u32,
                uv_u: w as u32,
                uv_v: 0,
                norm_x: nx,
                norm_y: ny,
                norm_z: nz,
                tex_id: tex,
                ao: ao_pp,
            },
            TerrainVertex {
                pos_x: x as u32,
                pos_y: (y + hoff) as u32,
                pos_z: z as u32,
                uv_u: 0,
                uv_v: h as u32,
                norm_x: nx,
                norm_y: ny,
                norm_z: nz,
                tex_id: tex,
                ao: ao_nn,
            },
            TerrainVertex {
                pos_x: (x + w) as u32,
                pos_y: (y + hoff) as u32,
                pos_z: z as u32,
                uv_u: w as u32,
                uv_v: h as u32,
                norm_x: nx,
                norm_y: ny,
                norm_z: nz,
                tex_id: tex,
                ao: ao_np,
            },
        ],
        Side::Front | Side::Back => seq![
            TerrainVertex {
                pos_x: x as u32,
                pos_y: (y + h) as u32,
                pos_z: (z + hoff) as u32,
                uv_u: 0,
                uv_v: 0,
                norm_x: nx,
                norm_y: ny,
                norm_z: nz,
                tex_id: tex,
                ao: ao_np,
            },
            TerrainVertex {
                pos_x: (x + w) as u32,
                pos_y: (y + h) as u32,
                pos_z: (z + hoff) as u32,
                uv_u: w as u32,
                uv_v: 0,
                norm_x: nx,
                norm_y: ny,
                norm_z: nz,
                tex_id: tex,
                ao: ao_pp,
            },
            TerrainVertex {
                pos_x: x as u32,
                pos_y: y as u32,
                pos_z: (z + hoff) as u32,
                uv_u: 0,
                uv_v: h as u32,
                norm_x: nx,
                norm_y: ny,
                norm_z: nz,
                tex_id: tex,
                ao: ao_nn,
            },
            TerrainVertex {
                pos_x: (x + w) as u32,
                pos_y: y as u32,
                pos_z: (z + hoff) as u32,
                uv_u: w as u32,
                uv_v: h as u32,
                norm_x: nx,
                norm_y: ny,
                norm_z: nz,
                tex_id: tex,
                ao: ao_pn,
            },
        ],
    }
}

/// The four liquid vertices of a quad: the terrain layout without corner
/// shading.
pub open spec fn spec_liquid_vertices(
    quad: VoxelQuad,
    side: Side,
    x: int,
    y: int,
    z: int,
    tex: u16,
) -> Seq<LiquidVertex> {
    Seq::new(
        4,
        |k: int|
            {
                let t = spec_terrain_vertices(quad, side, x, y, z, tex)[k];
                LiquidVertex {
                    pos_x: t.pos_x,
                    pos_y: t.pos_y,
                    pos_z: t.pos_z,
                    uv_u: t.uv_u,
                    uv_v: t.uv_v,
                    norm_x: t.norm_x,
                    norm_y: t.norm_y,
                    norm_z: t.norm_z,
                    tex_id: t.tex_id,
                }
            },
    )
}

/// The six index-buffer entries of a quad, rebased onto its four vertices.
pub open spec fn spec_offset_indices(s: Seq<u32>, base: u32) -> Seq<u32> {
    Seq::new(s.len(), |i: int| (s[i] + base) as u32)
}

} // verus!

verus! {

/// Accumulates the two output buffers of a meshing pass, quad by quad.
/// Each accepted quad adds exactly four vertices and six indices to one of
/// the buffers, and the indices always reference the four vertices just
/// pushed: no vertex is shared across quads.
#[derive(Clone, Debug)]
pub struct MeshConstructor {
    pub terrain_index: u32,
    pub liquid_index: u32,
    pub mesh: TerrainMeshes,
}

impl MeshConstructor {
    /// The constructor's running invariant: the next-vertex counters track
    /// the buffers, each quad contributed four vertices and six indices,
    /// and every index points inside its vertex buffer.
    pub open spec fn wf(&self) -> bool {
        &&& self.terrain_index as int == self.mesh.terrain.vertices@.len()
        &&& self.liquid_index as int == self.mesh.liquid.vertices@.len()
        &&& self.mesh.terrain.vertices@.len() % 4 == 0
        &&& self.mesh.liquid.vertices@.len() % 4 == 0
        &&& self.mesh.terrain.indices@.len() * 4 == self.mesh.terrain.vertices@.len() * 6
        &&& self.mesh.liquid.indices@.len() * 4 == self.mesh.liquid.vertices@.len() * 6
        &&& forall|i: int|
            0 <= i < self.mesh.terrain.indices@.len() ==> #[trigger] self.mesh.terrain.indices@[i]
                < self.mesh.terrain.vertices@.len()
        &&& forall|i: int|
            0 <= i < self.mesh.liquid.indices@.len() ==> #[trigger] self.mesh.liquid.indices@[i]
                < self.mesh.liquid.vertices@.len()
    }

    /// An empty constructor with both buffers empty.
    pub fn new() -> (r: MeshConstructor)
        ensures
            r.wf(),
            r.mesh.terrain.vertices@ == Seq::<TerrainVertex>::empty(),
            r.mesh.terrain.indices@ == Seq::<u32>::empty(),
            r.mesh.liquid.vertices@ == Seq::<LiquidVertex>::empty(),
            r.mesh.liquid.indices@ == Seq::<u32>::empty(),
    {
        MeshConstructor {
            terrain_index: 0,
            liquid_index: 0,
            mesh: TerrainMeshes {
                terrain: MeshBuffer { vertices: Vec::new(), indices: Vec::new() },
                liquid: MeshBuffer { vertices: Vec::new(), indices: Vec::new() },
            },
        }
    }

    /// Emits one opaque terrain quad: six indices winding two triangles
    /// over the quad's diagonal split, then the four shaded vertices.
    /// Fails, changing nothing, exactly when the registry has no texture
    /// for the quad's block on this side.
    pub fn add_terrain(
        &mut self,
        reg: &BlockRegistry,
        quad: VoxelQuad,
        side: Side,
        x: usize,
        y: usize,
        z: usize,
    ) -> (r: Result<(), MeshError>)
        requires
            old(self).wf(),
            x < SIZE,
            y < SIZE,
            z < SIZE,
            1 <= quad.width <= SIZE,
            1 <= quad.height <= SIZE,
            old(self).mesh.terrain.vertices@.len() + 4 <= u32::MAX,
        ensures
            final(self).wf(),
            reg.spec_texture(quad.id, side) is None ==> r == Err::<(), MeshError>(
                MeshError::MissingTexture { id: quad.id, side },
            ) && *final(self) == *old(self),
            reg.spec_texture(quad.id, side) is Some ==> r == Ok::<(), MeshError>(())
                && final(self).mesh.terrain.vertices@ == old(self).mesh.terrain.vertices@
                + spec_terrain_vertices(
                quad,
                side,
                x as int,
                y as int,
                z as int,
                reg.spec_texture(quad.id, side)->0,
            ) && final(self).mesh.terrain.indices@ == old(self).mesh.terrain.indices@
                + spec_offset_indices(
                spec_quad_indices(spec_flipped(quad.ao), spec_clockwise(side)),
                old(self).terrain_index,
            ) && final(self).mesh.liquid == old(self).mesh.liquid && final(self).liquid_index
                == old(self).liquid_index && final(self).terrain_index == old(self).terrain_index
                + 4,
    {
        let tex: u16 = match reg.block_texture(quad.id, side) {
            Some(t) => t,
            None => {
                return Err(MeshError::MissingTexture { id: quad.id, side });
            },
        };

        let ao_pp: u8 = quad.ao.corner_ao(FaceAo::AO_POS_POS);
        let ao_pn: u8 = quad.ao.corner_ao(FaceAo::AO_POS_NEG);
        let ao_nn: u8 = quad.ao.corner_ao(FaceAo::AO_NEG_NEG);
        let ao_np: u8 = quad.ao.corner_ao(FaceAo::AO_NEG_POS);
        let flipped: bool = ao_pp + ao_nn > ao_pn + ao_np;

        let clockwise: bool = match side {
            Side::Top => false,
            Side::Bottom => true,
            Side::Front => true,
            Side::Back => false,
            Side::Right => false,
            Side::Left => true,
        };

        let (i0, i1, i2, i3, i4, i5): (u32, u32, u32, u32, u32, u32) = if flipped {
            if clockwise {
                (0, 1, 2, 3, 2, 1)
            } else {
                (2, 1, 0, 1, 2, 3)
            }
        } else {
            if clockwise {
                (3, 2, 0, 0, 1, 3)
            } else {
                (0, 2, 3, 3, 1, 0)
            }
        };

        let ghost old_ind = self.mesh.terrain.indices@;
        let base: u32 = self.terrain_index;
        self.mesh.terrain.indices.push(base + i0);
        self.mesh.terrain.indices.push(base + i1);
        self.mesh.terrain.indices.push(base + i2);
        self.mesh.terrain.indices.push(base + i3);
        self.mesh.terrain.indices.push(base + i4);
        self.mesh.terrain.indices.push(base + i5);
        proof {
            assert(self.mesh.terrain.indices@ =~= old_ind + spec_offset_indices(
                spec_quad_indices(spec_flipped(quad.ao), spec_clockwise(side)),
                base,
            ));
        }

        let nrm: (i32, i32, i32) = side.normal();
        let hoff: usize = if side.facing_positive() {
            1
        } else {
            0
        };
        let qw: usize = quad.width;
        let qh: usize = quad.height;

        let ghost old_verts = self.mesh.terrain.vertices@;
        match side {
            Side::Left | Side::Right => {
                self.mesh.terrain.vertices.push(
                    TerrainVertex {
                        pos_x: (x + hoff) as u32,
                        pos_y: (y + qw) as u32,
                        pos_z: z as u32,
                        uv_u: 0,
                        uv_v: 0,
                        norm_x: nrm.0,
                        norm_y: nrm.1,
                        norm_z: nrm.2,
                        tex_id: tex,
                        ao: ao_pn,
                    },
                );
                self.mesh.terrain.vertices.push(
                    TerrainVertex {
                        pos_x: (x + hoff) as u32,
                        pos_y: (y + qw) as u32,
                        pos_z: (z + qh) as u32,
                        uv_u: qh as u32,
                        uv_v: 0,
                        norm_x: nrm.0,
                        norm_y: nrm.1,
                        norm_z: nrm.2,
                        tex_id: tex,
                        ao: ao_pp,
                    },
                );
                self.mesh.terrain.vertices.push(
                    TerrainVertex {
                        pos_x: (x + hoff) as u32,
                        pos_y: y as u32,
                        pos_z: z as u32,
                        uv_u: 0,
                        uv_v: qw as u32,
                        norm_x: nrm.0,
                        norm_y: nrm.1,
                        norm_z: nrm.2,
                        tex_id: tex,
                        ao: ao_nn,
                    },
                );
                self.mesh.terrain.vertices.push(
                    TerrainVertex {
                        pos_x: (x + hoff) as u32,
                        pos_y: y as u32,
                        pos_z: (z + qh) as u32,
                        uv_u: qh as u32,
                        uv_v: qw as u32,
                        norm_x: nrm.0,
                        norm_y: nrm.1,
                        norm_z: nrm.2,
                        tex_id: tex,
                        ao: ao_np,
                    },
                );
            },
            Side::Top | Side::Bottom => {
                self.mesh.terrain.vertices.push(
                    TerrainVertex {
                        pos_x: x as u32,
                        pos_y: (y + hoff) as u32,
                        pos_z: (z + qh) as u32,
                        uv_u: 0,
                        uv_v: 0,
                        norm_x: nrm.0,
                        norm_y: nrm.1,
                        norm_z: nrm.2,
                        tex_id: tex,
                        ao: ao_pn,
                    },
                );
                self.mesh.terrain.vertices.push(
                    TerrainVertex {
                        pos_x: (x + qw) as u32,
                        pos_y: (y + hoff) as u32,
                        pos_z: (z + qh) as u32,
                        uv_u: qw as u32,
                        uv_v: 0,
                        norm_x: nrm.0,
                        norm_y: nrm.1,
                        norm_z: nrm.2,
                        tex_id: tex,
                        ao: ao_pp,
                    },
                );
                self.mesh.terrain.vertices.push(
                    TerrainVertex {
                        pos_x: x as u32,
                        pos_y: (y + hoff) as u32,
                        pos_z: z as u32,
                        uv_u: 0,
                        uv_v: qh as u32,
                        norm_x: nrm.0,
                        norm_y: nrm.1,
                        norm_z: nrm.2,
                        tex_id: tex,
                        ao: ao_nn,
                    },
                );
                self.mesh.terrain.vertices.push(
                    TerrainVertex {
                        pos_x: (x + qw) as u32,
                        pos_y: (y + hoff) as u32,
                        pos_z: z as u32,
                        uv_u: qw as u32,
                        uv_v: qh as u32,
                        norm_x: nrm.0,
                        norm_y: nrm.1,
                        norm_z: nrm.2,
                        tex_id: tex,
                        ao: ao_np,
                    },
                );
            },
            Side::Front | Side::Back => {
                self.mesh.terrain.vertices.push(
                    TerrainVertex {
                        pos_x: x as u32,
                        pos_y: (y + qh) as u32,
                        pos_z: (z + hoff) as u32,
                        uv_u: 0,
                        uv_v: 0,
                        norm_x: nrm.0,
                        norm_y: nrm.1,
                        norm_z: nrm.2,
                        tex_id: tex,
                        ao: ao_np,
                    },
                );
                self.mesh.terrain.vertices.push(
                    TerrainVertex {
                        pos_x: (x + qw) as u32,
                        pos_y: (y + qh) as u32,
                        pos_z: (z + hoff) as u32,
                        uv_u: qw as u32,
                        uv_v: 0,
                        norm_x: nrm.0,
                        norm_y: nrm.1,
                        norm_z: nrm.2,
                        tex_id: tex,
                        ao: ao_pp,
                    },
                );
                self.mesh.terrain.vertices.push(
                    TerrainVertex {
                        pos_x: x as u32,
                        pos_y: y as u32,
                        pos_z: (z + hoff) as u32,
                        uv_u: 0,
                        uv_v: qh as u32,
                        norm_x: nrm.0,
                        norm_y: nrm.1,
                        norm_z: nrm.2,
                        tex_id: tex,
                        ao: ao_nn,
                    },
                );
                self.mesh.terrain.vertices.push(
                    TerrainVertex {
                        pos_x: (x + qw) as u32,
                        pos_y: y as u32,
                        pos_z: (z + hoff) as u32,
                        uv_u: qw as u32,
                        uv_v: qh as u32,
                        norm_x: nrm.0,
                        norm_y: nrm.1,
                        norm_z: nrm.2,
                        tex_id: tex,
                        ao: ao_pn,
                    },
                );
            },
        }
        self.terrain_index = base + 4;
        proof {
            assert(self.mesh.terrain.vertices@ =~= old_verts + spec_terrain_vertices(
                quad,
                side,
                x as int,
                y as int,
                z as int,
                tex,
            ));
            assert forall|i: int| 0 <= i < self.mesh.terrain.indices@.len() implies #[trigger] self
                .mesh
                .terrain
                .indices@[i] < self.mesh.terrain.vertices@.len() by {
                if i < old_ind.len() {
                    assert(self.mesh.terrain.indices@[i] == old_ind[i]);
                }
            }
        }
        Ok(())
    }

    /// Emits one liquid quad: six indices in the side's winding with the
    /// canonical diagonal, then the four unshaded vertices.  Fails,
    /// changing nothing, exactly when the registry has no texture for the
    /// quad's block on this side.
    pub fn add_liquid(
        &mut self,
        reg: &BlockRegistry,
        quad: VoxelQuad,
        side: Side,
        x: usize,
        y: usize,
        z: usize,
    ) -> (r: Result<(), MeshError>)
        requires
            old(self).wf(),
            x < SIZE,
            y < SIZE,
            z < SIZE,
            1 <= quad.width <= SIZE,
            1 <= quad.height <= SIZE,
            old(self).mesh.liquid.vertices@.len() + 4 <= u32::MAX,
        ensures
            final(self).wf(),
            reg.spec_texture(quad.id, side) is None ==> r == Err::<(), MeshError>(
                MeshError::MissingTexture { id: quad.id, side },
            ) && *final(self) == *old(self),
            reg.spec_texture(quad.id, side) is Some ==> r == Ok::<(), MeshError>(())
                && final(self).mesh.liquid.vertices@ == old(self).mesh.liquid.vertices@
                + spec_liquid_vertices(
                quad,
                side,
                x as int,
                y as int,
                z as int,
                reg.spec_texture(quad.id, side)->0,
            ) && final(self).mesh.liquid.indices@ == old(self).mesh.liquid.indices@
                + spec_offset_indices(
                spec_quad_indices(false, spec_clockwise(side)),
                old(self).liquid_index,
            ) && final(self).mesh.terrain == old(self).mesh.terrain && final(self).terrain_index
                == old(self).terrain_index && final(self).liquid_index == old(self).liquid_index
                + 4,
    {
        let tex: u16 = match reg.block_texture(quad.id, side) {
            Some(t) => t,
            None => {
                return Err(MeshError::MissingTexture { id: quad.id, side });
            },
        };

        let clockwise: bool = match side {
            Side::Top => false,
            Side::Bottom => true,
            Side::Front => true,
            Side::Back => false,
            Side::Right => false,
            Side::Left => true,
        };

        let (i0, i1, i2, i3, i4, i5): (u32, u32, u32, u32, u32, u32) = if clockwise {
            (3, 2, 0, 0, 1, 3)
        } else {
            (0, 2, 3, 3, 1, 0)
        };

        let ghost old_ind = self.mesh.liquid.indices@;
        let base: u32 = self.liquid_index;
        self.mesh.liquid.indices.push(base + i0);
        self.mesh.liquid.indices.push(base + i1);
        self.mesh.liquid.indices.push(base + i2);
        self.mesh.liquid.indices.push(base + i3);
        self.mesh.liquid.indices.push(base + i4);
        self.mesh.liquid.indices.push(base + i5);
        proof {
            assert(self.mesh.liquid.indices@ =~= old_ind + spec_offset_indices(
                spec_quad_indices(false, spec_clockwise(side)),
                base,
            ));
        }

        let nrm: (i32, i32, i32) = side.normal();
        let hoff: usize = if side.facing_positive() {
            1
        } else {
            0
        };
        let qw: usize = quad.width;
        let qh: usize = quad.height;

        let ghost old_verts = self.mesh.liquid.vertices@;
        match side {
            Side::Left | Side::Right => {
                self.mesh.liquid.vertices.push(
                    LiquidVertex {
                        pos_x: (x + hoff) as u32,
                        pos_y: (y + qw) as u32,
                        pos_z: z as u32,
                        uv_u: 0,
                        uv_v: 0,
                        norm_x: nrm.0,
                        norm_y: nrm.1,
                        norm_z: nrm.2,
                        tex_id: tex,
                    },
                );
                self.mesh.liquid.vertices.push(
                    LiquidVertex {
                        pos_x: (x + hoff) as u32,
                        pos_y: (y + qw) as u32,
                        pos_z: (z + qh) as u32,
                        uv_u: qh as u32,
                        uv_v: 0,
                        norm_x: nrm.0,
                        norm_y: nrm.1,
                        norm_z: nrm.2,
                        tex_id: tex,
                    },
                );
                self.mesh.liquid.vertices.push(
                    LiquidVertex {
                        pos_x: (x + hoff) as u32,
                        pos_y: y as u32,
                        pos_z: z as u32,
                        uv_u: 0,
                        uv_v: qw as u32,
                        norm_x: nrm.0,
                        norm_y: nrm.1,
                        norm_z: nrm.2,
                        tex_id: tex,
                    },
                );
                self.mesh.liquid.vertices.push(
                    LiquidVertex {
                        pos_x: (x + hoff) as u32,
                        pos_y: y as u32,
                        pos_z: (z + qh) as u32,
                        uv_u: qh as u32,
                        uv_v: qw as u32,
                        norm_x: nrm.0,
                        norm_y: nrm.1,
                        norm_z: nrm.2,
                        tex_id: tex,
                    },
                );
            },
            Side::Top | Side::Bottom => {
                self.mesh.liquid.vertices.push(
                    LiquidVertex {
                        pos_x: x as u32,
                        pos_y: (y + hoff) as u32,
                        pos_z: (z + qh) as u32,
                        uv_u: 0,
                        uv_v: 0,
                        norm_x: nrm.0,
                        norm_y: nrm.1,
                        norm_z: nrm.2,
                        tex_id: tex,
                    },
                );
                self.mesh.liquid.vertices.push(
                    LiquidVertex {
                        pos_x: (x + qw) as u32,
                        pos_y: (y + hoff) as u32,
                        pos_z: (z + qh) as u32,
                        uv_u: qw as u32,
                        uv_v: 0,
                        norm_x: nrm.0,
                        norm_y: nrm.1,
                        norm_z: nrm.2,
                        tex_id: tex,
                    },
                );
                self.mesh.liquid.vertices.push(
                    LiquidVertex {
                        pos_x: x as u32,
                        pos_y: (y + hoff) as u32,
                        pos_z: z as u32,
                        uv_u: 0,
                        uv_v: qh as u32,
                        norm_x: nrm.0,
                        norm_y: nrm.1,
                        norm_z: nrm.2,
                        tex_id: tex,
                    },
                );
                self.mesh.liquid.vertices.push(
                    LiquidVertex {
                        pos_x: (x + qw) as u32,
                        pos_y: (y + hoff) as u32,
                        pos_z: z as u32,
                        uv_u: qw as u32,
                        uv_v: qh as u32,
                        norm_x: nrm.0,
                        norm_y: nrm.1,
                        norm_z: nrm.2,
                        tex_id: tex,
                    },
                );
            },
            Side::Front | Side::Back => {
                self.mesh.liquid.vertices.push(
                    LiquidVertex {
                        pos_x: x as u32,
                        pos_y: (y + qh) as u32,
                        pos_z: (z + hoff) as u32,
                        uv_u: 0,
                        uv_v: 0,
                        norm_x: nrm.0,
                        norm_y: nrm.1,
                        norm_z: nrm.2,
                        tex_id: tex,
                    },
                );
                self.mesh.liquid.vertices.push(
                    LiquidVertex {
                        pos_x: (x + qw) as u32,
                        pos_y: (y + qh) as u32,
                        pos_z: (z + hoff) as u32,
                        uv_u: qw as u32,
                        uv_v: 0,
                        norm_x: nrm.0,
                        norm_y: nrm.1,
                        norm_z: nrm.2,
                        tex_id: tex,
                    },
                );
                self.mesh.liquid.vertices.push(
                    LiquidVertex {
                        pos_x: x as u32,
                        pos_y: y as u32,
                        pos_z: (z + hoff) as u32,
                        uv_u: 0,
                        uv_v: qh as u32,
                        norm_x: nrm.0,
                        norm_y: nrm.1,
                        norm_z: nrm.2,
                        tex_id: tex,
                    },
                );
                self.mesh.liquid.vertices.push(
                    LiquidVertex {
                        pos_x: (x + qw) as u32,
                        pos_y: y as u32,
                        pos_z: (z + hoff) as u32,
                        uv_u: qw as u32,
                        uv_v: qh as u32,
                        norm_x: nrm.0,
                        norm_y: nrm.1,
                        norm_z: nrm.2,
                        tex_id: tex,
                    },
                );
            },
        }
        self.liquid_index = base + 4;
        proof {
            assert(self.mesh.liquid.vertices@ =~= old_verts + spec_liquid_vertices(
                quad,
                side,
                x as int,
                y as int,
                z as int,
                tex,
            ));
            assert forall|i: int| 0 <= i < self.mesh.liquid.indices@.len() implies #[trigger] self
                .mesh
                .liquid
                .indices@[i] < self.mesh.liquid.vertices@.len() by {
                if i < old_ind.len() {
                    assert(self.mesh.liquid.indices@[i] == old_ind[i]);
                }
            }
        }
        Ok(())
    }
}

} // verus!

verus! {

/// The mathematical contents of the two output buffers.
pub ghost struct MeshState {
    pub terrain_verts: Seq<TerrainVertex>,
    pub terrain_inds: Seq<u32>,
    pub liquid_verts: Seq<LiquidVertex>,
    pub liquid_inds: Seq<u32>,
}

impl TerrainMeshes {
    /// The buffers' contents as one mathematical value.
    pub open spec fn state(&self) -> MeshState {
        MeshState {
            terrain_verts: self.terrain.vertices@,
            terrain_inds: self.terrain.indices@,
            liquid_verts: self.liquid.vertices@,
            liquid_inds: self.liquid.indices@,
        }
    }
}

impl MeshConstructor {
    /// The constructor's buffers as one mathematical value.
    pub open spec fn state(&self) -> MeshState {
        self.mesh.state()
    }
}

/// The state both buffers start from: empty.
pub open spec fn empty_mesh_state() -> MeshState {
    MeshState {
        terrain_verts: Seq::empty(),
        terrain_inds: Seq::empty(),
        liquid_verts: Seq::empty(),
        liquid_inds: Seq::empty(),
    }
}

/// What emitting one terrain quad does to the buffers: the six rebased
/// indices and four shaded vertices appended on success, or the missing
/// texture reported with nothing changed.
pub open spec fn spec_add_terrain(
    s: MeshState,
    reg: BlockRegistry,
    quad: VoxelQuad,
    side: Side,
    x: int,
    y: int,
    z: int,
) -> Result<MeshState, MeshError> {
    match reg.spec_texture(quad.id, side) {
        None => Err(MeshError::MissingTexture { id: quad.id, side }),
        Some(tex) => Ok(
            MeshState {
                terrain_verts: s.terrain_verts + spec_terrain_vertices(quad, side, x, y, z, tex),
                terrain_inds: s.terrain_inds + spec_offset_indices(
                    spec_quad_indices(spec_flipped(quad.ao), spec_clockwise(side)),
                    s.terrain_verts.len() as u32,
                ),
                liquid_verts: s.liquid_verts,
                liquid_inds: s.liquid_inds,
            },
        ),
    }
}

/// What emitting one liquid quad does to the buffers.
pub open spec fn spec_add_liquid(
    s: MeshState,
    reg: BlockRegistry,
    quad: VoxelQuad,
    side: Side,
    x: int,
    y: int,
    z: int,
) -> Result<MeshState, MeshError> {
    match reg.spec_texture(quad.id, side) {
        None => Err(MeshError::MissingTexture { id: quad.id, side }),
        Some(tex) => Ok(
            MeshState {
                terrain_verts: s.terrain_verts,
                terrain_inds: s.terrain_inds,
                liquid_verts: s.liquid_verts + spec_liquid_vertices(quad, side, x, y, z, tex),
                liquid_inds: s.liquid_inds + spec_offset_indices(
                    spec_quad_indices(false, spec_clockwise(side)),
                    s.liquid_verts.len() as u32,
                ),
            },
        ),
    }
}

} // verus!
