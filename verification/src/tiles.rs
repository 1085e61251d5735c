//! Merging one object's tiling result into the shared buffers.
//!
//! This is the buffer-facing side of the tiler: appending fill spans (and
//! flushing a fill-batch command whenever the buffer crosses a batch
//! boundary), appending alpha-tile records stamped with the object's
//! identifier, and recording solid coverage in the z-buffer.

use vstd::prelude::*;
use crate::gpu_data::AlphaTile;
use crate::gpu_data::Fill;
use crate::gpu_data::RenderCommand;
use crate::gpu_data::SharedBuffers;
use crate::gpu_data::TileCoords;
use crate::gpu_data::spec_max_u32;
use crate::scene::TileCoverage;
use crate::scene::TiledObject;
use crate::MAX_FILLS_PER_BATCH;

verus! {

/// The alpha-tile records that the coverage list `infos`, stamped with
/// `object_index`, packs to.
pub open spec fn spec_alpha_records(infos: Seq<TileCoverage>, object_index: u16) -> Seq<AlphaTile> {
    Seq::new(
        infos.len(),
        |i: int| AlphaTile::spec_new(infos[i].coords, infos[i].backdrop, object_index),
    )
}

/// Z-buffer entries after recording, in order, that `object_index` covers
/// each tile of `solids` (row-major grid of width `width`): each touched
/// entry keeps the greater of its value and `object_index + 1`.
pub open spec fn spec_z_apply(
    entries: Seq<u32>,
    solids: Seq<TileCoords>,
    object_index: u16,
    width: int,
) -> Seq<u32>
    decreases solids.len(),
{
    if solids.len() == 0 {
        entries
    } else {
        let prev = spec_z_apply(entries, solids.drop_last(), object_index, width);
        let c = solids.last();
        let idx = c.y * width + c.x;
        prev.update(idx, spec_max_u32(prev[idx], (object_index + 1) as u32))
    }
}

/// How the command stream grows while fill spans are appended: one fill-batch
/// command per batch boundary crossed, holding exactly that batch.
pub open spec fn spec_flushed_batches(
    oldc: Seq<RenderCommand>,
    newc: Seq<RenderCommand>,
    fills: Seq<Fill>,
    old_fill_count: int,
) -> bool {
    let b = MAX_FILLS_PER_BATCH as int;
    let oldnb = old_fill_count / b;
    let newnb = fills.len() as int / b;
    &&& newc.len() == oldc.len() + (newnb - oldnb)
    &&& newc.subrange(0, oldc.len() as int) == oldc
    &&& forall|j: int|
        oldc.len() <= j < newc.len() ==> ((#[trigger] newc[j]) matches RenderCommand::Fill(v) && v@
            == fills.subrange((oldnb + (j - oldc.len())) * b, (oldnb + (j - oldc.len()) + 1) * b))
}

/// Appending one span moves the batch count up exactly when it completes a
/// batch.
proof fn lemma_batch_step(l: int, b: int)
    requires
        0 <= l,
        0 < b,
    ensures
        (l + 1) % b == 0 ==> (l + 1) / b == l / b + 1,
        (l + 1) % b != 0 ==> (l + 1) / b == l / b,
        l % b != 0 || l / b * b == l,
{
    assert((l + 1) % b == 0 ==> (l + 1) / b == l / b + 1) by (nonlinear_arith)
        requires
            0 <= l,
            0 < b,
    ;
    assert((l + 1) % b != 0 ==> (l + 1) / b == l / b) by (nonlinear_arith)
        requires
            0 <= l,
            0 < b,
    ;
    assert(l % b != 0 || l / b * b == l) by (nonlinear_arith)
        requires
            0 <= l,
            0 < b,
    ;
}

/// Appending a span that does not complete a batch flushes nothing.
proof fn lemma_flush_extend(
    oldc: Seq<RenderCommand>,
    midc: Seq<RenderCommand>,
    old_fill_count: int,
    midfills: Seq<Fill>,
    newfills: Seq<Fill>,
)
    requires
        spec_flushed_batches(oldc, midc, midfills, old_fill_count),
        0 <= old_fill_count <= midfills.len(),
        newfills.len() == midfills.len() + 1,
        newfills.subrange(0, midfills.len() as int) == midfills,
        newfills.len() as int % (MAX_FILLS_PER_BATCH as int) != 0,
    ensures
        spec_flushed_batches(oldc, midc, newfills, old_fill_count),
{
    let b = MAX_FILLS_PER_BATCH as int;
    lemma_batch_step(midfills.len() as int, b);
    let oldnb = old_fill_count / b;
    let midnb = midfills.len() as int / b;
    assert(newfills.len() as int / b == midnb);
    assert forall|j: int| oldc.len() <= j < midc.len() implies ((#[trigger] midc[j]) matches
        RenderCommand::Fill(v) && v@ == newfills.subrange(
        (oldnb + (j - oldc.len())) * b,
        (oldnb + (j - oldc.len()) + 1) * b,
    )) by {
        let k = oldnb + (j - oldc.len());
        assert((k + 1) * b <= midnb * b <= midfills.len() as int) by (nonlinear_arith)
            requires
                k < midnb,
                0 < b,
                midnb == midfills.len() as int / b,
        ;
        assert(0 <= k * b) by (nonlinear_arith)
            requires
                0 <= k,
                0 < b,
        ;
        assert(newfills.subrange(k * b, (k + 1) * b) =~= midfills.subrange(k * b, (k + 1) * b));
    }
}

/// Appending a span that completes a batch flushes exactly that batch.
proof fn lemma_flush_emit(
    oldc: Seq<RenderCommand>,
    midc: Seq<RenderCommand>,
    newc: Seq<RenderCommand>,
    old_fill_count: int,
    midfills: Seq<Fill>,
    newfills: Seq<Fill>,
    cmd: RenderCommand,
)
    requires
        spec_flushed_batches(oldc, midc, midfills, old_fill_count),
        0 <= old_fill_count <= midfills.len(),
        newfills.len() == midfills.len() + 1,
        newfills.subrange(0, midfills.len() as int) == midfills,
        newfills.len() as int % (MAX_FILLS_PER_BATCH as int) == 0,
        newc == midc.push(cmd),
        cmd matches RenderCommand::Fill(v) && v@ == newfills.subrange(
            newfills.len() - (MAX_FILLS_PER_BATCH as int),
            newfills.len() as int,
        ),
    ensures
        spec_flushed_batches(oldc, newc, newfills, old_fill_count),
{
    let b = MAX_FILLS_PER_BATCH as int;
    lemma_batch_step(midfills.len() as int, b);
    let oldnb = old_fill_count / b;
    let midnb = midfills.len() as int / b;
    let newnb = newfills.len() as int / b;
    assert(newnb == midnb + 1);
    assert(newnb * b == newfills.len() as int) by (nonlinear_arith)
        requires
            newnb == newfills.len() as int / b,
            newfills.len() as int % b == 0,
            0 < b,
    ;
    assert(newc.subrange(0, oldc.len() as int) =~= midc.subrange(0, oldc.len() as int));
    assert forall|j: int| oldc.len() <= j < newc.len() implies ((#[trigger] newc[j]) matches
        RenderCommand::Fill(v) && v@ == newfills.subrange(
        (oldnb + (j - oldc.len())) * b,
        (oldnb + (j - oldc.len()) + 1) * b,
    )) by {
        let k = oldnb + (j - oldc.len());
        if j < midc.len() {
            assert(newc[j] == midc[j]);
            assert((k + 1) * b <= midnb * b <= midfills.len() as int) by (nonlinear_arith)
                requires
                    k < midnb,
                    0 < b,
                    midnb == midfills.len() as int / b,
            ;
            assert(0 <= k * b) by (nonlinear_arith)
                requires
                    0 <= k,
                    0 < b,
            ;
            assert(newfills.subrange(k * b, (k + 1) * b) =~= midfills.subrange(k * b, (k + 1) * b));
        } else {
            assert(j == newc.len() - 1 && newc[j] == cmd);
            assert(k == newnb - 1);
            assert((newnb - 1) * b == newfills.len() - b);
        }
    }
}

/// The fully-formed buffer records for one object, ready to merge: the unit
/// of work one tiling worker produces.
pub struct ObjectContribution {
    /// The object's index, narrowed to the 16-bit tile-object identifier.
    pub object_index: u16,
    pub fills: Vec<Fill>,
    pub alpha_tiles: Vec<AlphaTile>,
    pub solid_tiles: Vec<TileCoords>,
}

impl ObjectContribution {
    /// All tile coordinates, packed and plain, lie inside a `width` by
    /// `height` view box.
    pub open spec fn in_view(self, width: u16, height: u16) -> bool {
        &&& forall|i: int|
            0 <= i < self.alpha_tiles@.len() ==> (#[trigger] self.alpha_tiles@[i]).spec_tile_coords().x
                < width && self.alpha_tiles@[i].spec_tile_coords().y < height
        &&& forall|i: int|
            0 <= i < self.solid_tiles@.len() ==> (#[trigger] self.solid_tiles@[i]).x < width
                && self.solid_tiles@[i].y < height
    }
}

/// Tiles one object: packs its coverage records, stamped with `object_index`,
/// into buffer-ready form. Pure per-object work, independent of every other
/// object, which is what makes object-level parallelism sound.
pub fn tile_object(object: &TiledObject, object_index: u16) -> (c: ObjectContribution)
    requires
        object.in_view(crate::gpu_data::MAX_TILE_COORD, crate::gpu_data::MAX_TILE_COORD),
    ensures
        c.object_index == object_index,
        c.fills@ == object.fills@,
        c.alpha_tiles@ == spec_alpha_records(object.alpha_tiles@, object_index),
        c.solid_tiles@ == object.solid_tiles@,
{
    let mut fills: Vec<Fill> = Vec::new();
    let mut fi: usize = 0;
    while fi < object.fills.len()
        invariant
            fi <= object.fills@.len(),
            fills@ == object.fills@.take(fi as int),
        decreases object.fills@.len() - fi,
    {
        fills.push(object.fills[fi]);
        proof {
            assert(fills@ =~= object.fills@.take(fi + 1));
        }
        fi = fi + 1;
    }
    let mut alpha_tiles: Vec<AlphaTile> = Vec::new();
    let mut ai: usize = 0;
    while ai < object.alpha_tiles.len()
        invariant
            ai <= object.alpha_tiles@.len(),
            object.in_view(crate::gpu_data::MAX_TILE_COORD, crate::gpu_data::MAX_TILE_COORD),
            alpha_tiles@ == spec_alpha_records(object.alpha_tiles@.take(ai as int), object_index),
        decreases object.alpha_tiles@.len() - ai,
    {
        let cov = object.alpha_tiles[ai];
        alpha_tiles.push(AlphaTile::new(cov.coords, cov.backdrop, object_index));
        proof {
            assert(alpha_tiles@ =~= spec_alpha_records(
                object.alpha_tiles@.take(ai + 1),
                object_index,
            ));
        }
        ai = ai + 1;
    }
    let mut solid_tiles: Vec<TileCoords> = Vec::new();
    let mut si: usize = 0;
    while si < object.solid_tiles.len()
        invariant
            si <= object.solid_tiles@.len(),
            solid_tiles@ == object.solid_tiles@.take(si as int),
        decreases object.solid_tiles@.len() - si,
    {
        solid_tiles.push(object.solid_tiles[si]);
        proof {
            assert(solid_tiles@ =~= object.solid_tiles@.take(si + 1));
        }
        si = si + 1;
    }
    proof {
        assert(object.fills@.take(object.fills@.len() as int) =~= object.fills@);
        assert(object.alpha_tiles@.take(object.alpha_tiles@.len() as int) =~= object.alpha_tiles@);
        assert(object.solid_tiles@.take(object.solid_tiles@.len() as int) =~= object.solid_tiles@);
    }
    ObjectContribution { object_index, fills, alpha_tiles, solid_tiles }
}

/// Merges one object's contribution into the shared buffers: appends its fill
/// spans (flushing a full fill batch into the command stream whenever the
/// buffer crosses a batch boundary), appends its alpha-tile records, and
/// records its solid coverage in the z-buffer.
pub fn merge_contribution(
    c: &ObjectContribution,
    buffers: &mut SharedBuffers,
    cmds: &mut Vec<RenderCommand>,
)
    requires
        old(buffers).wf(),
        c.in_view(old(buffers).z_buffer.width, old(buffers).z_buffer.height),
    ensures
        final(buffers).wf(),
        final(buffers).z_buffer.width == old(buffers).z_buffer.width,
        final(buffers).z_buffer.height == old(buffers).z_buffer.height,
        final(buffers).fills@ == old(buffers).fills@ + c.fills@,
        final(buffers).alpha_tiles@ == old(buffers).alpha_tiles@ + c.alpha_tiles@,
        final(buffers).z_buffer.entries@ == spec_z_apply(
            old(buffers).z_buffer.entries@,
            c.solid_tiles@,
            c.object_index,
            old(buffers).z_buffer.width as int,
        ),
        spec_flushed_batches(
            old(cmds)@,
            final(cmds)@,
            final(buffers).fills@,
            old(buffers).fills@.len() as int,
        ),
{
    let b = MAX_FILLS_PER_BATCH as usize;
    let ghost old_fills = buffers.fills@;
    let ghost old_cmds = cmds@;

    let mut fi: usize = 0;
    proof {
        assert(buffers.fills@ =~= old_fills + c.fills@.take(0));
        assert(cmds@.subrange(0, cmds@.len() as int) =~= cmds@);
    }
    while fi < c.fills.len()
        invariant
            fi <= c.fills@.len(),
            buffers.wf(),
            buffers.z_buffer == old(buffers).z_buffer,
            buffers.alpha_tiles@ == old(buffers).alpha_tiles@,
            buffers.fills@ == old_fills + c.fills@.take(fi as int),
            spec_flushed_batches(old_cmds, cmds@, buffers.fills@, old_fills.len() as int),
            b == MAX_FILLS_PER_BATCH as usize,
        decreases c.fills@.len() - fi,
    {
        let ghost pre_fills = buffers.fills@;
        let ghost pre_cmds = cmds@;
        buffers.fills.push(c.fills[fi]);
        proof {
            assert(buffers.fills@ =~= old_fills + c.fills@.take(fi + 1));
            assert(buffers.fills@.subrange(0, pre_fills.len() as int) =~= pre_fills);
        }
        if buffers.fills.len() % b == 0 {
            let flen = buffers.fills.len();
            proof {
                assert(flen >= b) by (nonlinear_arith)
                    requires
                        flen == buffers.fills@.len(),
                        flen as int % (b as int) == 0,
                        flen >= 1,
                        b == MAX_FILLS_PER_BATCH as usize,
                ;
            }
            let batch = buffers.fill_range_to_vec(flen - b, flen);
            cmds.push(RenderCommand::Fill(batch));
            proof {
                lemma_flush_emit(
                    old_cmds,
                    pre_cmds,
                    cmds@,
                    old_fills.len() as int,
                    pre_fills,
                    buffers.fills@,
                    cmds@.last(),
                );
            }
        } else {
            proof {
                lemma_flush_extend(
                    old_cmds,
                    cmds@,
                    old_fills.len() as int,
                    pre_fills,
                    buffers.fills@,
                );
            }
        }
        fi = fi + 1;
    }
    proof {
        assert(c.fills@.take(c.fills@.len() as int) =~= c.fills@);
    }

    let mut ai: usize = 0;
    proof {
        assert(buffers.alpha_tiles@ =~= old(buffers).alpha_tiles@ + c.alpha_tiles@.take(0));
    }
    while ai < c.alpha_tiles.len()
        invariant
            ai <= c.alpha_tiles@.len(),
            buffers.wf(),
            buffers.z_buffer == old(buffers).z_buffer,
            buffers.fills@ == old(buffers).fills@ + c.fills@,
            cmds@ == final(cmds)@,
            buffers.alpha_tiles@ == old(buffers).alpha_tiles@ + c.alpha_tiles@.take(ai as int),
        decreases c.alpha_tiles@.len() - ai,
    {
        buffers.alpha_tiles.push(c.alpha_tiles[ai]);
        proof {
            assert(buffers.alpha_tiles@ =~= old(buffers).alpha_tiles@ + c.alpha_tiles@.take(
                ai + 1,
            ));
        }
        ai = ai + 1;
    }
    proof {
        assert(c.alpha_tiles@.take(c.alpha_tiles@.len() as int) =~= c.alpha_tiles@);
    }

    let mut si: usize = 0;
    while si < c.solid_tiles.len()
        invariant
            si <= c.solid_tiles@.len(),
            buffers.wf(),
            buffers.z_buffer.width == old(buffers).z_buffer.width,
            buffers.z_buffer.height == old(buffers).z_buffer.height,
            c.in_view(buffers.z_buffer.width, buffers.z_buffer.height),
            buffers.fills@ == old(buffers).fills@ + c.fills@,
            buffers.alpha_tiles@ == old(buffers).alpha_tiles@ + c.alpha_tiles@,
            cmds@ == final(cmds)@,
            buffers.z_buffer.entries@ == spec_z_apply(
                old(buffers).z_buffer.entries@,
                c.solid_tiles@.take(si as int),
                c.object_index,
                buffers.z_buffer.width as int,
            ),
        decreases c.solid_tiles@.len() - si,
    {
        let coords = c.solid_tiles[si];
        buffers.z_buffer.record_solid(coords, c.object_index);
        proof {
            assert(c.solid_tiles@.take(si + 1).drop_last() =~= c.solid_tiles@.take(si as int));
        }
        si = si + 1;
    }
    proof {
        assert(c.solid_tiles@.take(c.solid_tiles@.len() as int) =~= c.solid_tiles@);
    }
}

/// Runs tiling of one object to completion against the shared buffers, as the
/// sequential build does: pack its records, then merge them.
pub fn generate_tiles(
    object: &TiledObject,
    object_index: u16,
    buffers: &mut SharedBuffers,
    cmds: &mut Vec<RenderCommand>,
)
    requires
        old(buffers).wf(),
        object.in_view(old(buffers).z_buffer.width, old(buffers).z_buffer.height),
    ensures
        final(buffers).wf(),
        final(buffers).z_buffer.width == old(buffers).z_buffer.width,
        final(buffers).z_buffer.height == old(buffers).z_buffer.height,
        final(buffers).fills@ == old(buffers).fills@ + object.fills@,
        final(buffers).alpha_tiles@ == old(buffers).alpha_tiles@ + spec_alpha_records(
            object.alpha_tiles@,
            object_index,
        ),
        final(buffers).z_buffer.entries@ == spec_z_apply(
            old(buffers).z_buffer.entries@,
            object.solid_tiles@,
            object_index,
            old(buffers).z_buffer.width as int,
        ),
        spec_flushed_batches(
            old(cmds)@,
            final(cmds)@,
            final(buffers).fills@,
            old(buffers).fills@.len() as int,
        ),
{
    let c = tile_object(object, object_index);
    proof {
        lemma_contribution_in_view(*object, c, buffers.z_buffer.width, buffers.z_buffer.height);
    }
    merge_contribution(&c, buffers, cmds);
}

/// A contribution packed from an in-view object is in view: packing and
/// unpacking a tile coordinate gives the coordinate back.
pub(crate) proof fn lemma_contribution_in_view(
    object: TiledObject,
    c: ObjectContribution,
    width: u16,
    height: u16,
)
    requires
        object.in_view(width, height),
        width <= crate::gpu_data::MAX_TILE_COORD,
        height <= crate::gpu_data::MAX_TILE_COORD,
        c.alpha_tiles@ == spec_alpha_records(object.alpha_tiles@, c.object_index),
        c.solid_tiles@ == object.solid_tiles@,
    ensures
        c.in_view(width, height),
{
    assert forall|i: int| 0 <= i < c.alpha_tiles@.len() implies (
    #[trigger] c.alpha_tiles@[i]).spec_tile_coords().x < width
        && c.alpha_tiles@[i].spec_tile_coords().y < height by {
        let coords = object.alpha_tiles@[i].coords;
        crate::gpu_data::lemma_pack_round_trip(coords.x, coords.y);
    }
}
} // verus!
