//! Scene building: orchestration, occlusion culling and command packing.
//!
//! A build emits the mask-clear command, tiles every object into the shared
//! buffers (sequentially or across a worker pool), then — after all
//! per-object work is done — culls hidden alpha tiles against the z-buffer
//! and drains the buffers into solid-tile, fill-remainder and alpha-tile
//! commands, in that fixed order.

use vstd::prelude::*;
use crate::gpu_data::AlphaTile;
use crate::gpu_data::Fill;
use crate::gpu_data::RenderCommand;
use crate::gpu_data::SharedBuffers;
use crate::gpu_data::SolidTile;
use crate::gpu_data::spec_solid_tiles;
use crate::options::PreparedRenderOptions;
use crate::parallel::par_tile_objects;
use crate::scene::Scene;
use crate::scene::TiledObject;
use crate::sort::sort_alpha_tiles;
use crate::sort::spec_stable_sort;
use crate::tiles::generate_tiles;
use crate::tiles::merge_contribution;
use crate::tiles::spec_alpha_records;
use crate::tiles::spec_flushed_batches;
use crate::tiles::spec_z_apply;
use crate::MAX_FILLS_PER_BATCH;

verus! {

/// Shared context for scene builders.
pub struct SceneBuilderContext;

impl SceneBuilderContext {
    pub fn new() -> SceneBuilderContext {
        SceneBuilderContext
    }
}

/// The single sink a build sends its commands to, in emission order.
/// Implementations must be safely callable from several threads at once:
/// during the parallel phase, workers may emit fill batches concurrently.
pub trait RenderCommandListener: Send + Sync {
    fn send(&self, command: RenderCommand);
}

/// All fill spans of the first `n` objects, in object order.
pub open spec fn spec_all_fills(objects: Seq<TiledObject>, n: int) -> Seq<Fill>
    decreases n,
{
    if n <= 0 {
        Seq::empty()
    } else {
        spec_all_fills(objects, n - 1) + objects[n - 1].fills@
    }
}

/// All alpha-tile records of the first `n` objects, in object order, each
/// stamped with its object's index.
pub open spec fn spec_all_alphas(objects: Seq<TiledObject>, n: int) -> Seq<AlphaTile>
    decreases n,
{
    if n <= 0 {
        Seq::empty()
    } else {
        spec_all_alphas(objects, n - 1) + spec_alpha_records(
            objects[n - 1].alpha_tiles@,
            (n - 1) as u16,
        )
    }
}

/// A z-buffer of `width * height` empty entries.
pub open spec fn spec_zero_entries(width: int, height: int) -> Seq<u32> {
    Seq::new((width * height) as nat, |i: int| 0u32)
}

/// Z-buffer entries after the first `n` objects recorded their solid
/// coverage.
pub open spec fn spec_z_entries(
    z0: Seq<u32>,
    objects: Seq<TiledObject>,
    n: int,
    width: int,
) -> Seq<u32>
    decreases n,
{
    if n <= 0 {
        z0
    } else {
        spec_z_apply(
            spec_z_entries(z0, objects, n - 1, width),
            objects[n - 1].solid_tiles@,
            (n - 1) as u16,
            width,
        )
    }
}

/// Whether the alpha tile `t` survives occlusion: no opaque object with a
/// higher index covers its tile.
pub open spec fn spec_visible(entries: Seq<u32>, width: int, t: AlphaTile) -> bool {
    entries[t.spec_tile_coords().y * width + t.spec_tile_coords().x] <= t.object_index + 1
}

/// The alpha-tile buffer after culling: visible records are kept unchanged,
/// occluded records are overwritten in place with the sentinel. Order and
/// length are preserved.
pub open spec fn spec_cull(alphas: Seq<AlphaTile>, entries: Seq<u32>, width: int) -> Seq<
    AlphaTile,
> {
    Seq::new(
        alphas.len(),
        |i: int|
            if spec_visible(entries, width, alphas[i]) {
                alphas[i]
            } else {
                alphas[i].spec_culled()
            },
    )
}

/// All fill spans a build of `scene` buffers, in object order.
pub open spec fn spec_scene_fills(scene: Scene) -> Seq<Fill> {
    spec_all_fills(scene.objects@, scene.objects@.len() as int)
}

/// All alpha-tile records a build of `scene` buffers, in object order.
pub open spec fn spec_scene_alphas(scene: Scene) -> Seq<AlphaTile> {
    spec_all_alphas(scene.objects@, scene.objects@.len() as int)
}

/// The z-buffer a build of `scene` ends tiling with.
pub open spec fn spec_scene_z(scene: Scene) -> Seq<u32> {
    spec_z_entries(
        spec_zero_entries(scene.view_width as int, scene.view_height as int),
        scene.objects@,
        scene.objects@.len() as int,
        scene.view_width as int,
    )
}

/// The alpha-tile buffer of a build of `scene` after occlusion culling.
pub open spec fn spec_scene_culled(scene: Scene) -> Seq<AlphaTile> {
    spec_cull(spec_scene_alphas(scene), spec_scene_z(scene), scene.view_width as int)
}

/// The solid tiles a build of `scene` emits.
pub open spec fn spec_scene_solid(scene: Scene) -> Seq<SolidTile> {
    spec_solid_tiles(
        spec_scene_z(scene),
        scene.view_width as int,
        0,
        scene.objects@.len() as u32,
    )
}

/// How many full fill batches a build of `scene` flushes during tiling.
pub open spec fn spec_nb(scene: Scene) -> int {
    spec_scene_fills(scene).len() as int / (MAX_FILLS_PER_BATCH as int)
}

/// The size of the trailing partial fill batch of a build of `scene`.
pub open spec fn spec_rem(scene: Scene) -> int {
    spec_scene_fills(scene).len() as int % (MAX_FILLS_PER_BATCH as int)
}

/// Whether packing emits a trailing fill command (1) or not (0).
pub open spec fn spec_nf(scene: Scene) -> int {
    if spec_rem(scene) != 0 {
        1
    } else {
        0
    }
}

/// Whether packing emits a solid-tile command (1) or not (0).
pub open spec fn spec_ns(scene: Scene) -> int {
    if spec_scene_solid(scene).len() > 0 {
        1
    } else {
        0
    }
}

/// Whether packing emits an alpha-tile command (1) or not (0).
pub open spec fn spec_na(scene: Scene) -> int {
    if spec_scene_alphas(scene).len() > 0 {
        1
    } else {
        0
    }
}

/// How many commands a build of `scene` emits in all.
pub open spec fn spec_command_count(scene: Scene) -> int {
    1 + spec_nb(scene) + spec_nf(scene) + spec_ns(scene) + spec_na(scene)
}

/// What stands at position `j` of the command stream of a build of `scene`:
/// the mask clear first; then one fill command per full batch, in buffer
/// order; then the trailing partial fill batch, the solid tiles, and the
/// alpha tiles sorted stably by object index — each of the last three only
/// when non-empty.
pub open spec fn spec_command_at(scene: Scene, cmds: Seq<RenderCommand>, j: int) -> bool {
    let b = MAX_FILLS_PER_BATCH as int;
    let fills = spec_scene_fills(scene);
    if j == 0 {
        cmds[j] is ClearMaskFramebuffer
    } else if j <= spec_nb(scene) {
        cmds[j] matches RenderCommand::Fill(v) && v@ == fills.subrange((j - 1) * b, j * b)
    } else if j == 1 + spec_nb(scene) && spec_nf(scene) == 1 {
        cmds[j] matches RenderCommand::Fill(v) && v@ == fills.subrange(
            fills.len() - spec_rem(scene),
            fills.len() as int,
        )
    } else if j == 1 + spec_nb(scene) + spec_nf(scene) && spec_ns(scene) == 1 {
        cmds[j] matches RenderCommand::SolidTile(v) && v@ == spec_scene_solid(scene)
    } else {
        cmds[j] matches RenderCommand::AlphaTile(v) && v@ == spec_stable_sort(
            spec_scene_culled(scene),
        )
    }
}

/// The full command stream of a build of `scene`, sequential or parallel.
pub open spec fn spec_build_commands(cmds: Seq<RenderCommand>, scene: Scene) -> bool {
    &&& cmds.len() == spec_command_count(scene)
    &&& forall|j: int| 0 <= j < cmds.len() ==> spec_command_at(scene, cmds, j)
}

/// Builds scenes: drives per-object tiling, then culling and packing, and
/// hands the resulting commands to a listener.
pub struct SceneBuilder<'ctx, 'a> {
    pub context: &'ctx SceneBuilderContext,
    pub scene: &'a Scene,
    pub built_options: &'a PreparedRenderOptions,
}

/// Builds one object: looks it up in the scene and runs its tiling to
/// completion against the shared buffers.
pub fn build_object(
    object_index: usize,
    _view_box: (u16, u16),
    buffers: &mut SharedBuffers,
    _built_options: &PreparedRenderOptions,
    cmds: &mut Vec<RenderCommand>,
    scene: &Scene,
)
    requires
        scene.wf(),
        object_index < scene.objects@.len(),
        old(buffers).wf(),
        old(buffers).z_buffer.width == scene.view_width,
        old(buffers).z_buffer.height == scene.view_height,
    ensures
        final(buffers).wf(),
        final(buffers).z_buffer.width == old(buffers).z_buffer.width,
        final(buffers).z_buffer.height == old(buffers).z_buffer.height,
        final(buffers).fills@ == old(buffers).fills@ + scene.objects@[object_index as int].fills@,
        final(buffers).alpha_tiles@ == old(buffers).alpha_tiles@ + spec_alpha_records(
            scene.objects@[object_index as int].alpha_tiles@,
            object_index as u16,
        ),
        final(buffers).z_buffer.entries@ == spec_z_apply(
            old(buffers).z_buffer.entries@,
            scene.objects@[object_index as int].solid_tiles@,
            object_index as u16,
            old(buffers).z_buffer.width as int,
        ),
        spec_flushed_batches(
            old(cmds)@,
            final(cmds)@,
            final(buffers).fills@,
            old(buffers).fills@.len() as int,
        ),
{
    let object = &scene.objects[object_index];
    generate_tiles(object, object_index as u16, buffers, cmds);
}

/// Every record the first `n` objects buffer unpacks to coordinates inside
/// the view box.
proof fn lemma_all_alphas_in_view(objects: Seq<TiledObject>, n: int, width: u16, height: u16)
    requires
        0 <= n <= objects.len(),
        width <= crate::gpu_data::MAX_TILE_COORD,
        height <= crate::gpu_data::MAX_TILE_COORD,
        forall|i: int| 0 <= i < objects.len() ==> (#[trigger] objects[i]).in_view(width, height),
    ensures
        forall|i: int|
            0 <= i < spec_all_alphas(objects, n).len() ==> (#[trigger] spec_all_alphas(
                objects,
                n,
            )[i]).spec_tile_coords().x < width && spec_all_alphas(objects, n)[i].spec_tile_coords().y
                < height,
    decreases n,
{
    if n > 0 {
        lemma_all_alphas_in_view(objects, n - 1, width, height);
        let prev = spec_all_alphas(objects, n - 1);
        let cur = spec_all_alphas(objects, n);
        assert forall|i: int| 0 <= i < cur.len() implies (
        #[trigger] cur[i]).spec_tile_coords().x < width && cur[i].spec_tile_coords().y
            < height by {
            if i >= prev.len() {
                let coords = objects[n - 1].alpha_tiles@[i - prev.len()].coords;
                crate::gpu_data::lemma_pack_round_trip(coords.x, coords.y);
            }
        }
    }
}

impl<'ctx, 'a> SceneBuilder<'ctx, 'a> {
    pub fn new(
        context: &'ctx SceneBuilderContext,
        scene: &'a Scene,
        built_options: &'a PreparedRenderOptions,
    ) -> (r: SceneBuilder<'ctx, 'a>)
        ensures
            r.scene == scene,
            r.built_options == built_options,
    {
        SceneBuilder { context, scene, built_options }
    }

    /// Occlusion culling: overwrites, in place, every buffered alpha tile
    /// that a higher-indexed opaque object fully covers with the sentinel
    /// pattern. Nothing is removed: the buffer keeps its length and order,
    /// and visible records are untouched.
    fn cull_alpha_tiles(&self, buffers: &mut SharedBuffers)
        requires
            old(buffers).wf(),
            forall|i: int|
                0 <= i < old(buffers).alpha_tiles@.len() ==> (#[trigger] old(buffers).alpha_tiles@[i]).spec_tile_coords().x < old(buffers).z_buffer.width && old(buffers).alpha_tiles@[i].spec_tile_coords().y < old(buffers).z_buffer.height,
        ensures
            final(buffers).wf(),
            final(buffers).fills@ == old(buffers).fills@,
            final(buffers).z_buffer == old(buffers).z_buffer,
            final(buffers).alpha_tiles@ == spec_cull(
                old(buffers).alpha_tiles@,
                old(buffers).z_buffer.entries@,
                old(buffers).z_buffer.width as int,
            ),
            final(buffers).alpha_tiles@.len() == old(buffers).alpha_tiles@.len(),
    {
        let ghost old_alphas = buffers.alpha_tiles@;
        let ghost entries = buffers.z_buffer.entries@;
        let ghost w = buffers.z_buffer.width as int;
        let mut i: usize = 0;
        while i < buffers.alpha_tiles.len()
            invariant
                i <= buffers.alpha_tiles@.len(),
                buffers.wf(),
                buffers.fills@ == old(buffers).fills@,
                buffers.z_buffer == old(buffers).z_buffer,
                entries == buffers.z_buffer.entries@,
                w == buffers.z_buffer.width as int,
                buffers.alpha_tiles@.len() == old_alphas.len(),
                forall|j: int|
                    0 <= j < old_alphas.len() ==> (#[trigger] old_alphas[j]).spec_tile_coords().x
                        < buffers.z_buffer.width && old_alphas[j].spec_tile_coords().y
                        < buffers.z_buffer.height,
                forall|j: int|
                    i <= j < old_alphas.len() ==> (#[trigger] buffers.alpha_tiles@[j])
                        == old_alphas[j],
                forall|j: int|
                    0 <= j < i ==> (#[trigger] buffers.alpha_tiles@[j]) == spec_cull(
                        old_alphas,
                        entries,
                        w,
                    )[j],
            decreases buffers.alpha_tiles@.len() - i,
        {
            let alpha_tile = buffers.alpha_tiles[i];
            let alpha_tile_coords = alpha_tile.tile_coords();
            let visible = buffers.z_buffer.test(alpha_tile_coords, alpha_tile.object_index as u32);
            if !visible {
                let culled = alpha_tile.culled();
                buffers.alpha_tiles[i] = culled;
            }
            i = i + 1;
        }
        proof {
            assert(buffers.alpha_tiles@ =~= spec_cull(old_alphas, entries, w));
        }
    }

    /// Packing: drains the buffers into the command stream exactly once.
    /// First the trailing partial fill batch, if the fill count is not
    /// batch-aligned (emptying the fill buffer); then the solid tiles, if
    /// any; then the alpha tiles sorted stably by object index, if any
    /// (emptying the alpha buffer).
    fn pack_alpha_tiles(&self, buffers: &mut SharedBuffers, cmds: &mut Vec<RenderCommand>)
        requires
            old(buffers).wf(),
            self.scene.objects@.len() <= crate::scene::MAX_SCENE_OBJECTS,
        ensures
            final(buffers).wf(),
            final(buffers).z_buffer == old(buffers).z_buffer,
            final(cmds)@.len() == old(cmds)@.len() + spec_pack_nf(old(buffers).fills@)
                + spec_pack_ns(*old(buffers), self.scene.objects@.len() as int) + spec_pack_na(
                old(buffers).alpha_tiles@,
            ),
            final(cmds)@.subrange(0, old(cmds)@.len() as int) == old(cmds)@,
            spec_pack_nf(old(buffers).fills@) == 1 ==> (final(cmds)@[old(cmds)@.len() as int]
                matches RenderCommand::Fill(v) && v@ == old(buffers).fills@.subrange(
                old(buffers).fills@.len() - old(buffers).fills@.len() as int % (
                MAX_FILLS_PER_BATCH as int),
                old(buffers).fills@.len() as int,
            )),
            spec_pack_ns(*old(buffers), self.scene.objects@.len() as int) == 1 ==> (
            final(cmds)@[old(cmds)@.len() + spec_pack_nf(old(buffers).fills@)] matches
                RenderCommand::SolidTile(v) && v@ == spec_solid_tiles(
                old(buffers).z_buffer.entries@,
                old(buffers).z_buffer.width as int,
                0,
                self.scene.objects@.len() as u32,
            )),
            spec_pack_na(old(buffers).alpha_tiles@) == 1 ==> (final(cmds)@[old(cmds)@.len()
                + spec_pack_nf(old(buffers).fills@) + spec_pack_ns(
                *old(buffers),
                self.scene.objects@.len() as int,
            )] matches RenderCommand::AlphaTile(v) && v@ == spec_stable_sort(
                old(buffers).alpha_tiles@,
            )),
            old(buffers).fills@.len() as int % (MAX_FILLS_PER_BATCH as int) != 0 ==> final(buffers).fills@.len() == 0,
            old(buffers).fills@.len() as int % (MAX_FILLS_PER_BATCH as int) == 0 ==> final(buffers).fills@ == old(buffers).fills@,
            old(buffers).alpha_tiles@.len() > 0 ==> final(buffers).alpha_tiles@.len() == 0,
            old(buffers).alpha_tiles@.len() == 0 ==> final(buffers).alpha_tiles@ == old(buffers).alpha_tiles@,
    {
        let b = MAX_FILLS_PER_BATCH as usize;
        let object_count = self.scene.objects.len() as u32;

        let solid_tiles = buffers.z_buffer.build_solid_tiles(0, object_count);

        let fill_count = buffers.fills.len();
        if fill_count % b != 0 {
            let fill_start = fill_count / b * b;
            proof {
                assert(fill_count as int / (b as int) * (b as int) == fill_count as int
                    - fill_count as int % (b as int)) by (nonlinear_arith)
                    requires
                        0 < b,
                        0 <= fill_count,
                ;
            }
            let tail = buffers.fill_range_to_vec(fill_start, fill_count);
            cmds.push(RenderCommand::Fill(tail));
            buffers.fills.clear();
        }

        if solid_tiles.len() > 0 {
            cmds.push(RenderCommand::SolidTile(solid_tiles));
        }

        if buffers.alpha_tiles.len() > 0 {
            let tiles = sort_alpha_tiles(&buffers.alpha_tiles);
            cmds.push(RenderCommand::AlphaTile(tiles));
            buffers.alpha_tiles.clear();
        }
        proof {
            assert(final(cmds)@.subrange(0, old(cmds)@.len() as int) =~= old(cmds)@);
        }
    }

    /// Computes the full command stream of one build, tiling objects in
    /// index order on the calling thread, then culling and packing.
    pub fn build_commands(&self) -> (cmds: Vec<RenderCommand>)
        requires
            self.scene.wf(),
        ensures
            spec_build_commands(cmds@, *self.scene),
    {
        let scene = self.scene;
        let (width, height) = scene.effective_view_box(self.built_options);
        let mut buffers = SharedBuffers::new(width, height);
        let mut cmds: Vec<RenderCommand> = Vec::new();
        cmds.push(RenderCommand::ClearMaskFramebuffer);
        proof {
            assert(buffers.z_buffer.entries@ =~= spec_zero_entries(width as int, height as int));
            assert(buffers.fills@ =~= spec_all_fills(scene.objects@, 0));
            assert(buffers.alpha_tiles@ =~= spec_all_alphas(scene.objects@, 0));
        }
        let object_count = scene.objects.len();
        let mut i: usize = 0;
        while i < object_count
            invariant
                scene.wf(),
                scene == self.scene,
                object_count == scene.objects@.len(),
                i <= object_count,
                buffers.wf(),
                buffers.z_buffer.width == scene.view_width,
                buffers.z_buffer.height == scene.view_height,
                buffers.fills@ == spec_all_fills(scene.objects@, i as int),
                buffers.alpha_tiles@ == spec_all_alphas(scene.objects@, i as int),
                buffers.z_buffer.entries@ == spec_z_entries(
                    spec_zero_entries(scene.view_width as int, scene.view_height as int),
                    scene.objects@,
                    i as int,
                    scene.view_width as int,
                ),
                cmds@.len() == 1 + buffers.fills@.len() as int / (MAX_FILLS_PER_BATCH as int),
                cmds@[0] is ClearMaskFramebuffer,
                forall|j: int|
                    1 <= j < cmds@.len() ==> ((#[trigger] cmds@[j]) matches RenderCommand::Fill(v)
                        && v@ == buffers.fills@.subrange(
                        (j - 1) * (MAX_FILLS_PER_BATCH as int),
                        j * (MAX_FILLS_PER_BATCH as int),
                    )),
            decreases object_count - i,
        {
            let ghost pre_cmds = cmds@;
            let ghost pre_fills = buffers.fills@;
            build_object(i, (width, height), &mut buffers, self.built_options, &mut cmds, scene);
            proof {
                assert(buffers.fills@.subrange(0, pre_fills.len() as int) =~= pre_fills);
                lemma_build_loop_step(pre_cmds, cmds@, pre_fills, buffers.fills@);
            }
            i = i + 1;
        }
        self.finish_build(&mut buffers, &mut cmds);
        cmds
    }

    /// Computes the full command stream of one build, fanning per-object
    /// tiling out across a worker pool, merging the results in object order,
    /// then culling and packing. The stream is the same as the sequential
    /// build's: both satisfy the one build-stream specification.
    pub fn build_commands_parallel(&self) -> (cmds: Vec<RenderCommand>)
        requires
            self.scene.wf(),
        ensures
            spec_build_commands(cmds@, *self.scene),
    {
        let scene = self.scene;
        let (width, height) = scene.effective_view_box(self.built_options);
        let mut buffers = SharedBuffers::new(width, height);
        let mut cmds: Vec<RenderCommand> = Vec::new();
        cmds.push(RenderCommand::ClearMaskFramebuffer);
        proof {
            assert(buffers.z_buffer.entries@ =~= spec_zero_entries(width as int, height as int));
            assert(buffers.fills@ =~= spec_all_fills(scene.objects@, 0));
            assert(buffers.alpha_tiles@ =~= spec_all_alphas(scene.objects@, 0));
        }
        let contributions = par_tile_objects(scene);
        let object_count = contributions.len();
        let mut i: usize = 0;
        while i < object_count
            invariant
                scene.wf(),
                scene == self.scene,
                object_count == scene.objects@.len(),
                contributions@.len() == object_count,
                forall|k: int|
                    0 <= k < contributions@.len() ==> (#[trigger] contributions@[k]).object_index
                        == k as u16 && contributions@[k].fills@ == scene.objects@[k].fills@
                        && contributions@[k].alpha_tiles@ == spec_alpha_records(
                        scene.objects@[k].alpha_tiles@,
                        k as u16,
                    ) && contributions@[k].solid_tiles@ == scene.objects@[k].solid_tiles@,
                i <= object_count,
                buffers.wf(),
                buffers.z_buffer.width == scene.view_width,
                buffers.z_buffer.height == scene.view_height,
                buffers.fills@ == spec_all_fills(scene.objects@, i as int),
                buffers.alpha_tiles@ == spec_all_alphas(scene.objects@, i as int),
                buffers.z_buffer.entries@ == spec_z_entries(
                    spec_zero_entries(scene.view_width as int, scene.view_height as int),
                    scene.objects@,
                    i as int,
                    scene.view_width as int,
                ),
                cmds@.len() == 1 + buffers.fills@.len() as int / (MAX_FILLS_PER_BATCH as int),
                cmds@[0] is ClearMaskFramebuffer,
                forall|j: int|
                    1 <= j < cmds@.len() ==> ((#[trigger] cmds@[j]) matches RenderCommand::Fill(v)
                        && v@ == buffers.fills@.subrange(
                        (j - 1) * (MAX_FILLS_PER_BATCH as int),
                        j * (MAX_FILLS_PER_BATCH as int),
                    )),
            decreases object_count - i,
        {
            let ghost pre_cmds = cmds@;
            let ghost pre_fills = buffers.fills@;
            proof {
                crate::tiles::lemma_contribution_in_view(
                    scene.objects@[i as int],
                    contributions@[i as int],
                    buffers.z_buffer.width,
                    buffers.z_buffer.height,
                );
            }
            merge_contribution(&contributions[i], &mut buffers, &mut cmds);
            proof {
                assert(buffers.fills@.subrange(0, pre_fills.len() as int) =~= pre_fills);
                lemma_build_loop_step(pre_cmds, cmds@, pre_fills, buffers.fills@);
            }
            i = i + 1;
        }
        self.finish_build(&mut buffers, &mut cmds);
        cmds
    }

    /// Culling and packing after all per-object work is done, turning the
    /// buffered build state into the final command stream.
    fn finish_build(&self, buffers: &mut SharedBuffers, cmds: &mut Vec<RenderCommand>)
        requires
            self.scene.wf(),
            old(buffers).wf(),
            old(buffers).z_buffer.width == self.scene.view_width,
            old(buffers).z_buffer.height == self.scene.view_height,
            old(buffers).fills@ == spec_scene_fills(*self.scene),
            old(buffers).alpha_tiles@ == spec_scene_alphas(*self.scene),
            old(buffers).z_buffer.entries@ == spec_scene_z(*self.scene),
            old(cmds)@.len() == 1 + spec_nb(*self.scene),
            old(cmds)@[0] is ClearMaskFramebuffer,
            forall|j: int|
                1 <= j < old(cmds)@.len() ==> ((#[trigger] old(cmds)@[j]) matches
                    RenderCommand::Fill(v) && v@ == spec_scene_fills(*self.scene).subrange(
                    (j - 1) * (MAX_FILLS_PER_BATCH as int),
                    j * (MAX_FILLS_PER_BATCH as int),
                )),
        ensures
            spec_build_commands(final(cmds)@, *self.scene),
    {
        let ghost scene = *self.scene;
        proof {
            lemma_all_alphas_in_view(
                scene.objects@,
                scene.objects@.len() as int,
                scene.view_width,
                scene.view_height,
            );
        }
        self.cull_alpha_tiles(buffers);
        proof {
            assert(buffers.alpha_tiles@ == spec_scene_culled(scene));
        }
        let ghost pre_pack_cmds = cmds@;
        self.pack_alpha_tiles(buffers, cmds);
        proof {
            assert(spec_scene_culled(scene).len() == spec_scene_alphas(scene).len());
            assert(spec_pack_na(spec_scene_culled(scene)) == spec_na(scene));
            assert(cmds@.len() == spec_command_count(scene));
            assert forall|j: int| 0 <= j < cmds@.len() implies spec_command_at(
                scene,
                cmds@,
                j,
            ) by {
                let b = MAX_FILLS_PER_BATCH as int;
                let nb = spec_nb(scene);
                let nf = spec_nf(scene);
                let ns = spec_ns(scene);
                if j < pre_pack_cmds.len() {
                    assert(cmds@.subrange(0, pre_pack_cmds.len() as int)[j] == cmds@[j]);
                    assert(cmds@[j] == pre_pack_cmds[j]);
                } else {
                    assert(pre_pack_cmds.len() == 1 + nb);
                }
            }
        }
    }

    /// Builds the scene sequentially: objects are tiled in index order on
    /// the calling thread, and every command is handed to `listener` in
    /// emission order.
    pub fn build_sequentially<L: RenderCommandListener>(&mut self, listener: &L)
        requires
            old(self).scene.wf(),
        ensures
            final(self).context == old(self).context,
            final(self).scene == old(self).scene,
            final(self).built_options == old(self).built_options,
    {
        let cmds = self.build_commands();
        send_all(listener, cmds);
    }

    /// Builds the scene with per-object tiling fanned out across a worker
    /// pool, then hands every command to `listener` in emission order. The
    /// stream sent is the same as `build_sequentially` sends.
    pub fn build_in_parallel<L: RenderCommandListener>(&mut self, listener: &L)
        requires
            old(self).scene.wf(),
        ensures
            final(self).context == old(self).context,
            final(self).scene == old(self).scene,
            final(self).built_options == old(self).built_options,
    {
        let cmds = self.build_commands_parallel();
        send_all(listener, cmds);
    }
}

/// Hands each command to the listener, in order.
fn send_all<L: RenderCommandListener>(listener: &L, cmds: Vec<RenderCommand>) {
    let mut rest = cmds;
    while rest.len() > 0
        decreases rest@.len(),
    {
        let cmd = rest.remove(0);
        listener.send(cmd);
    }
}

/// The first command of every build is the mask clear, and no other command
/// is.
pub proof fn lemma_first_command_clear(cmds: Seq<RenderCommand>, scene: Scene)
    requires
        spec_build_commands(cmds, scene),
    ensures
        cmds.len() >= 1,
        cmds[0] is ClearMaskFramebuffer,
        forall|j: int| 1 <= j < cmds.len() ==> !((#[trigger] cmds[j]) is ClearMaskFramebuffer),
{
    assert(spec_command_at(scene, cmds, 0));
    assert forall|j: int| 1 <= j < cmds.len() implies !((#[trigger] cmds[j])
        is ClearMaskFramebuffer) by {
        assert(spec_command_at(scene, cmds, j));
    }
}

/// Commands keep their relative order: every fill command precedes the
/// solid-tile command, which precedes the alpha-tile command, whenever each
/// is present.
pub proof fn lemma_command_order(cmds: Seq<RenderCommand>, scene: Scene)
    requires
        spec_build_commands(cmds, scene),
    ensures
        forall|i: int, j: int|
            0 <= i < cmds.len() && 0 <= j < cmds.len() && (#[trigger] cmds[i]) is Fill && (
            #[trigger] cmds[j]) is SolidTile ==> i < j,
        forall|i: int, j: int|
            0 <= i < cmds.len() && 0 <= j < cmds.len() && (#[trigger] cmds[i]) is Fill && (
            #[trigger] cmds[j]) is AlphaTile ==> i < j,
        forall|i: int, j: int|
            0 <= i < cmds.len() && 0 <= j < cmds.len() && (#[trigger] cmds[i]) is SolidTile && (
            #[trigger] cmds[j]) is AlphaTile ==> i < j,
{
    let nb = spec_nb(scene);
    let nf = spec_nf(scene);
    let ns = spec_ns(scene);
    assert forall|i: int, j: int|
        0 <= i < cmds.len() && 0 <= j < cmds.len() && (#[trigger] cmds[i]) is Fill && (
        #[trigger] cmds[j]) is SolidTile implies i < j by {
        assert(spec_command_at(scene, cmds, i));
        assert(spec_command_at(scene, cmds, j));
    }
    assert forall|i: int, j: int|
        0 <= i < cmds.len() && 0 <= j < cmds.len() && (#[trigger] cmds[i]) is Fill && (
        #[trigger] cmds[j]) is AlphaTile implies i < j by {
        assert(spec_command_at(scene, cmds, i));
        assert(spec_command_at(scene, cmds, j));
    }
    assert forall|i: int, j: int|
        0 <= i < cmds.len() && 0 <= j < cmds.len() && (#[trigger] cmds[i]) is SolidTile && (
        #[trigger] cmds[j]) is AlphaTile implies i < j by {
        assert(spec_command_at(scene, cmds, i));
        assert(spec_command_at(scene, cmds, j));
    }
}

/// Two commands carrying the same payload content.
pub open spec fn spec_same_command(a: RenderCommand, b: RenderCommand) -> bool {
    match (a, b) {
        (RenderCommand::ClearMaskFramebuffer, RenderCommand::ClearMaskFramebuffer) => true,
        (RenderCommand::Fill(x), RenderCommand::Fill(y)) => x@ == y@,
        (RenderCommand::SolidTile(x), RenderCommand::SolidTile(y)) => x@ == y@,
        (RenderCommand::AlphaTile(x), RenderCommand::AlphaTile(y)) => x@ == y@,
        _ => false,
    }
}

/// Sequential and parallel builds of one scene agree: any two command streams
/// that meet the build-stream specification have the same length and the same
/// command, with the same content, at every position.
pub proof fn lemma_modes_agree(c1: Seq<RenderCommand>, c2: Seq<RenderCommand>, scene: Scene)
    requires
        spec_build_commands(c1, scene),
        spec_build_commands(c2, scene),
    ensures
        c1.len() == c2.len(),
        forall|j: int| 0 <= j < c1.len() ==> spec_same_command(#[trigger] c1[j], c2[j]),
{
    assert forall|j: int| 0 <= j < c1.len() implies spec_same_command(
        #[trigger] c1[j],
        c2[j],
    ) by {
        assert(spec_command_at(scene, c1, j));
        assert(spec_command_at(scene, c2, j));
    }
}

/// Each object build leaves the stream as one clear command followed by one
/// fill command per completed batch, in order.
proof fn lemma_build_loop_step(
    pre_cmds: Seq<RenderCommand>,
    new_cmds: Seq<RenderCommand>,
    pre_fills: Seq<Fill>,
    new_fills: Seq<Fill>,
)
    requires
        spec_flushed_batches(pre_cmds, new_cmds, new_fills, pre_fills.len() as int),
        pre_cmds.len() == 1 + pre_fills.len() as int / (MAX_FILLS_PER_BATCH as int),
        pre_cmds[0] is ClearMaskFramebuffer,
        forall|j: int|
            1 <= j < pre_cmds.len() ==> ((#[trigger] pre_cmds[j]) matches RenderCommand::Fill(v)
                && v@ == pre_fills.subrange(
                (j - 1) * (MAX_FILLS_PER_BATCH as int),
                j * (MAX_FILLS_PER_BATCH as int),
            )),
        new_fills.len() >= pre_fills.len(),
        new_fills.subrange(0, pre_fills.len() as int) == pre_fills,
    ensures
        new_cmds.len() == 1 + new_fills.len() as int / (MAX_FILLS_PER_BATCH as int),
        new_cmds[0] is ClearMaskFramebuffer,
        forall|j: int|
            1 <= j < new_cmds.len() ==> ((#[trigger] new_cmds[j]) matches RenderCommand::Fill(v)
                && v@ == new_fills.subrange(
                (j - 1) * (MAX_FILLS_PER_BATCH as int),
                j * (MAX_FILLS_PER_BATCH as int),
            )),
{
    let b = MAX_FILLS_PER_BATCH as int;
    let prenb = pre_fills.len() as int / b;
    let newnb = new_fills.len() as int / b;
    assert(new_cmds.subrange(0, pre_cmds.len() as int)[0] == new_cmds[0]);
    assert forall|j: int| 1 <= j < new_cmds.len() implies ((#[trigger] new_cmds[j]) matches
        RenderCommand::Fill(v) && v@ == new_fills.subrange((j - 1) * b, j * b)) by {
        if j < pre_cmds.len() {
            assert(new_cmds.subrange(0, pre_cmds.len() as int)[j] == new_cmds[j]);
            assert(new_cmds[j] == pre_cmds[j]);
            assert(0 <= (j - 1) * b && j * b <= prenb * b <= pre_fills.len() as int)
                by (nonlinear_arith)
                requires
                    1 <= j,
                    j - 1 < prenb,
                    0 < b,
                    prenb == pre_fills.len() as int / b,
            ;
            assert(new_fills.subrange((j - 1) * b, j * b) =~= pre_fills.subrange(
                (j - 1) * b,
                j * b,
            ));
        } else {
            assert(prenb + (j - pre_cmds.len()) == j - 1);
        }
    }
}

/// Whether packing a fill buffer of this content emits a trailing fill
/// command.
pub open spec fn spec_pack_nf(fills: Seq<Fill>) -> int {
    if fills.len() as int % (MAX_FILLS_PER_BATCH as int) != 0 {
        1
    } else {
        0
    }
}

/// Whether packing these buffers emits a solid-tile command.
pub open spec fn spec_pack_ns(buffers: SharedBuffers, object_count: int) -> int {
    if spec_solid_tiles(
        buffers.z_buffer.entries@,
        buffers.z_buffer.width as int,
        0,
        object_count as u32,
    ).len() > 0 {
        1
    } else {
        0
    }
}

/// Whether packing an alpha buffer of this content emits an alpha-tile
/// command.
pub open spec fn spec_pack_na(alphas: Seq<AlphaTile>) -> int {
    if alphas.len() > 0 {
        1
    } else {
        0
    }
}

} // verus!
