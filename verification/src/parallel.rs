//! Parallel fan-out of per-object tiling.
//!
//! Each object's tiling is a pure computation independent of every other
//! object, so the parallel build mode tiles objects across a worker pool and
//! merges the results in object order afterwards; the merged stream is the
//! same as the sequential build's.

use vstd::prelude::*;
use rayon::iter::IntoParallelIterator;
use rayon::iter::ParallelIterator;
use crate::scene::Scene;
use crate::tiles::ObjectContribution;
use crate::tiles::spec_alpha_records;
use crate::tiles::tile_object;

verus! {

/// Relies on rayon's indexed parallel iterator over `0..n`: `map` applies its
/// closure to every index exactly once and `collect` keeps index order, so
/// the collected vector equals the sequential mapping. The closure only calls
/// this library's `tile_object`, whose precondition the scene's
/// well-formedness guarantees for every index.
#[verifier::external_body]
pub(crate) fn par_tile_objects(scene: &Scene) -> (r: Vec<ObjectContribution>)
    requires
        scene.wf(),
    ensures
        r@.len() == scene.objects@.len(),
        forall|i: int|
            0 <= i < r@.len() ==> (#[trigger] r@[i]).object_index == i as u16 && r@[i].fills@
                == scene.objects@[i].fills@ && r@[i].alpha_tiles@ == spec_alpha_records(
                scene.objects@[i].alpha_tiles@,
                i as u16,
            ) && r@[i].solid_tiles@ == scene.objects@[i].solid_tiles@,
{
    (0..scene.objects.len())
        .into_par_iter()
        .map(|object_index| tile_object(&scene.objects[object_index], object_index as u16))
        .collect()
}

} // verus!
