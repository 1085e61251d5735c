//! The scene a build consumes.
//!
//! Scene storage, outlines and the per-outline tiling algorithm are external
//! collaborators; what this stage consumes from them is, per object, the
//! tiling result: fill spans, partial-coverage tiles and fully-covered tiles.

use vstd::prelude::*;
use crate::gpu_data::Fill;
use crate::gpu_data::MAX_TILE_COORD;
use crate::gpu_data::TileCoords;
use crate::options::PreparedRenderOptions;

verus! {

/// One partial-coverage tile produced by tiling an object's outline.
#[derive(Clone, Copy, Debug, PartialEq, Eq, Structural)]
pub struct TileCoverage {
    pub coords: TileCoords,
    /// Winding backdrop the coverage of this tile starts from.
    pub backdrop: i8,
}

/// The tiling result of one object: everything the tiler appends into the
/// shared buffers when this object is built.
pub struct TiledObject {
    pub fills: Vec<Fill>,
    pub alpha_tiles: Vec<TileCoverage>,
    pub solid_tiles: Vec<TileCoords>,
}

impl TiledObject {
    /// All tile coordinates lie inside a `width` by `height` view box.
    pub open spec fn in_view(self, width: u16, height: u16) -> bool {
        &&& forall|i: int|
            0 <= i < self.alpha_tiles@.len() ==> (#[trigger] self.alpha_tiles@[i]).coords.x < width
                && self.alpha_tiles@[i].coords.y < height
        &&& forall|i: int|
            0 <= i < self.solid_tiles@.len() ==> (#[trigger] self.solid_tiles@[i]).x < width
                && self.solid_tiles@[i].y < height
    }
}

/// A build narrows each object index to a 16-bit tile-object identifier,
/// which bounds a scene to this many objects.
pub const MAX_SCENE_OBJECTS: usize = 0x10000;

/// An ordered sequence of tiled objects plus the view box they were tiled
/// against, in whole tiles. Immutable for the duration of a build.
pub struct Scene {
    pub objects: Vec<TiledObject>,
    pub view_width: u16,
    pub view_height: u16,
}

impl Scene {
    pub open spec fn wf(self) -> bool {
        &&& self.view_width <= MAX_TILE_COORD
        &&& self.view_height <= MAX_TILE_COORD
        &&& self.objects@.len() <= MAX_SCENE_OBJECTS
        &&& forall|i: int|
            0 <= i < self.objects@.len() ==> (#[trigger] self.objects@[i]).in_view(
                self.view_width,
                self.view_height,
            )
    }

    /// How many objects the scene holds.
    pub fn object_count(&self) -> (r: usize)
        ensures
            r == self.objects@.len(),
    {
        self.objects.len()
    }

    /// The view box a build of this scene covers, in whole tiles. The
    /// prepared options do not change it at tile granularity.
    pub fn effective_view_box(&self, _built_options: &PreparedRenderOptions) -> (r: (u16, u16))
        ensures
            r.0 == self.view_width,
            r.1 == self.view_height,
    {
        (self.view_width, self.view_height)
    }
}

} // verus!
