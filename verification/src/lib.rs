//! Scene-build stage of a tile-based vector-graphics rasterizer.
//!
//! Converts a scene of tiled objects and a view transform into an ordered
//! stream of GPU-ready drawing commands: occlusion culling of hidden alpha
//! tiles, batching of fills and tiles into size- and order-constrained
//! commands, and preparation of perspective transforms by clipping the view
//! volume in homogeneous space.

pub mod builder;
pub mod gpu_data;
pub mod geometry;
pub mod options;
pub mod parallel;
pub mod scene;
pub mod sort;
pub mod tiles;

use vstd::prelude::*;

verus! {

/// Fill commands are flushed in batches of exactly this many fills.
/// Must be a power of two.
pub const MAX_FILLS_PER_BATCH: u32 = 0x1000;

} // verus!
