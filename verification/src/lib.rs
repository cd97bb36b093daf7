//! Greedy voxel meshing with per-corner ambient occlusion.
//!
//! The library turns a chunk of typed voxels, padded with a one-cell halo
//! sampled from its face-adjacent neighbor chunks, into two triangle meshes:
//! one for opaque terrain and one for liquid surfaces.  Face visibility,
//! corner shading, rectangle merging and vertex emission are all verified;
//! floating-point conversion and GPU upload are left to the embedding
//! application, which receives integer cell coordinates.

pub mod ao;
pub mod block;
pub mod chunk;
pub mod cull;
pub mod greedy;
pub mod mesh;
pub mod mesher;

use vstd::prelude::*;

verus! {

/// Edge length of a chunk, in cells.
pub const SIZE: usize = 16;

/// Edge length of a padded chunk: the chunk plus a one-cell halo on each face.
pub const PAD: usize = SIZE + 2;

/// Number of cells in one slice of a chunk.
pub const AREA: usize = SIZE * SIZE;

/// Number of cells in a chunk.
pub const VOLUME: usize = SIZE * SIZE * SIZE;

/// Number of cells in a padded chunk.
pub const PAD_VOLUME: usize = PAD * PAD * PAD;

} // verus!
