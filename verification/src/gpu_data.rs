//! GPU-ready data: fills, tiles, commands, and the shared buffers that one
//! build fills and then drains.

use vstd::prelude::*;

verus! {

/// Tile coordinates on the output raster grid. Both components are below
/// `MAX_TILE_COORD`, so that they fit the packed byte layout of [`AlphaTile`].
#[derive(Clone, Copy, Debug, PartialEq, Eq, Structural)]
pub struct TileCoords {
    pub x: u16,
    pub y: u16,
}

/// Tile coordinates are packed into one low byte and one shared-nibble high
/// byte per axis, so they must stay below 16 * 256.
pub const MAX_TILE_COORD: u16 = 4096;

/// One fill span: a run-length description of covered pixels within one tile,
/// passed through this stage unchanged.
#[derive(Clone, Copy, Debug, PartialEq, Eq, Structural)]
pub struct Fill {
    /// Packed pixel-granularity endpoints of the span.
    pub px: u16,
    /// Packed subpixel-granularity endpoints of the span.
    pub subpx: u32,
    /// Index of the alpha tile this span contributes coverage to.
    pub alpha_tile_index: u16,
}

/// Byte written over all three packed coordinate fields of an alpha tile that
/// occlusion culling found to be fully hidden; the consumer skips such tiles.
pub const CULL_SENTINEL_BYTE: u8 = 0xff;

/// One partial-coverage record for one tile of one object.
///
/// The tile coordinates are packed: each axis keeps its low eight bits in its
/// own byte, and the two high nibbles share `tile_hi` (x in the low nibble,
/// y in the high nibble).
#[derive(Clone, Copy, Debug, PartialEq, Eq, Structural)]
pub struct AlphaTile {
    pub tile_x_lo: u8,
    pub tile_y_lo: u8,
    pub tile_hi: u8,
    /// Winding backdrop the coverage of this tile starts from.
    pub backdrop: i8,
    /// Index of the object this coverage came from.
    pub object_index: u16,
}

/// One fully and opaquely covered tile, rendered without blending.
#[derive(Clone, Copy, Debug, PartialEq, Eq, Structural)]
pub struct SolidTile {
    pub tile_x: u16,
    pub tile_y: u16,
    pub object_index: u16,
}

impl AlphaTile {
    /// The tile coordinates packed into this record.
    pub open spec fn spec_tile_coords(self) -> TileCoords {
        TileCoords {
            x: (self.tile_x_lo + 256 * (self.tile_hi % 16)) as u16,
            y: (self.tile_y_lo + 256 * (self.tile_hi / 16)) as u16,
        }
    }

    /// The record `coords`, `backdrop` and `object_index` pack to.
    pub open spec fn spec_new(coords: TileCoords, backdrop: i8, object_index: u16) -> AlphaTile {
        AlphaTile {
            tile_x_lo: (coords.x % 256) as u8,
            tile_y_lo: (coords.y % 256) as u8,
            tile_hi: (coords.x / 256 + (coords.y / 256) * 16) as u8,
            backdrop,
            object_index,
        }
    }

    /// This record with its coordinate bytes overwritten by the cull sentinel;
    /// the payload fields stay.
    pub open spec fn spec_culled(self) -> AlphaTile {
        AlphaTile {
            tile_x_lo: CULL_SENTINEL_BYTE,
            tile_y_lo: CULL_SENTINEL_BYTE,
            tile_hi: CULL_SENTINEL_BYTE,
            ..self
        }
    }

    /// Packs a coverage record for the tile at `coords`.
    pub fn new(coords: TileCoords, backdrop: i8, object_index: u16) -> (r: AlphaTile)
        requires
            coords.x < MAX_TILE_COORD,
            coords.y < MAX_TILE_COORD,
        ensures
            r == Self::spec_new(coords, backdrop, object_index),
            r.spec_tile_coords() == coords,
    {
        let r = AlphaTile {
            tile_x_lo: (coords.x % 256) as u8,
            tile_y_lo: (coords.y % 256) as u8,
            tile_hi: (coords.x / 256 + (coords.y / 256) * 16) as u8,
            backdrop,
            object_index,
        };
        proof {
            lemma_pack_round_trip(coords.x, coords.y);
        }
        r
    }

    /// Unpacks the tile coordinates of this record.
    pub fn tile_coords(&self) -> (r: TileCoords)
        ensures
            r == self.spec_tile_coords(),
    {
        TileCoords {
            x: self.tile_x_lo as u16 + 256 * ((self.tile_hi % 16) as u16),
            y: self.tile_y_lo as u16 + 256 * ((self.tile_hi / 16) as u16),
        }
    }

    /// This record overwritten by the cull sentinel.
    pub fn culled(&self) -> (r: AlphaTile)
        ensures
            r == self.spec_culled(),
    {
        AlphaTile {
            tile_x_lo: CULL_SENTINEL_BYTE,
            tile_y_lo: CULL_SENTINEL_BYTE,
            tile_hi: CULL_SENTINEL_BYTE,
            ..*self
        }
    }
}

/// Packing the two coordinates and unpacking them again gives the
/// coordinates back.
pub proof fn lemma_pack_round_trip(x: u16, y: u16)
    requires
        x < MAX_TILE_COORD,
        y < MAX_TILE_COORD,
    ensures
        forall|b: i8, o: u16|
            (#[trigger] AlphaTile::spec_new((TileCoords { x, y }), b, o)).spec_tile_coords()
                == (TileCoords { x, y }),
{
    let xl = x % 256;
    let xh = x / 256;
    let yl = y % 256;
    let yh = y / 256;
    assert(xh < 16 && yh < 16);
    assert((xh + yh * 16) % 16 == xh && (xh + yh * 16) / 16 == yh) by (nonlinear_arith)
        requires
            0 <= xh < 16,
            0 <= yh < 16,
    ;
    assert(xl + 256 * xh == x) by (nonlinear_arith)
        requires
            xl == x % 256,
            xh == x / 256,
            0 <= x < 4096,
    ;
    assert(yl + 256 * yh == y) by (nonlinear_arith)
        requires
            yl == y % 256,
            yh == y / 256,
            0 <= y < 4096,
    ;
}

/// One unit of output, handed to the listener in emission order.
#[derive(Clone, Debug, PartialEq)]
pub enum RenderCommand {
    /// Resets GPU-side mask accumulation; always first, exactly once.
    ClearMaskFramebuffer,
    /// A bounded batch of fill spans.
    Fill(Vec<Fill>),
    /// All solid tiles of the build.
    SolidTile(Vec<SolidTile>),
    /// All alpha tiles of the build, sorted by object index.
    AlphaTile(Vec<AlphaTile>),
}

/// Per-tile record of the topmost fully-opaque covering object, used for
/// occlusion culling. Entry `y * width + x` holds `object_index + 1` of the
/// highest-indexed object that fully and opaquely covers tile `(x, y)`, or 0
/// when no object does.
pub struct ZBuffer {
    pub width: u16,
    pub height: u16,
    pub entries: Vec<u32>,
}

impl ZBuffer {
    pub open spec fn wf(self) -> bool {
        &&& self.width <= MAX_TILE_COORD
        &&& self.height <= MAX_TILE_COORD
        &&& self.entries@.len() == self.width * self.height
    }

    /// Row-major entry index of tile `(x, y)`.
    pub open spec fn spec_idx(self, coords: TileCoords) -> int {
        coords.y * self.width + coords.x
    }

    pub open spec fn in_bounds(self, coords: TileCoords) -> bool {
        coords.x < self.width && coords.y < self.height
    }

    /// An object at `object_index` is visible at `coords` unless a
    /// higher-indexed object opaquely covers that tile: among competing
    /// opaque objects the numerically greatest index wins, consistent with
    /// later objects painting over earlier ones.
    pub open spec fn spec_test(self, coords: TileCoords, object_index: u32) -> bool {
        self.entries@[self.spec_idx(coords)] <= object_index + 1
    }

    pub fn new(width: u16, height: u16) -> (r: ZBuffer)
        requires
            width <= MAX_TILE_COORD,
            height <= MAX_TILE_COORD,
        ensures
            r.wf(),
            r.width == width,
            r.height == height,
            forall|i: int| 0 <= i < r.entries@.len() ==> r.entries@[i] == 0,
    {
        proof {
            assert((width as int) * (height as int) <= 4096 * 4096) by (nonlinear_arith)
                requires
                    0 <= width <= 4096,
                    0 <= height <= 4096,
            ;
        }
        let n = (width as usize) * (height as usize);
        let mut entries: Vec<u32> = Vec::new();
        let mut i: usize = 0;
        while i < n
            invariant
                i <= n,
                entries@.len() == i,
                forall|j: int| 0 <= j < i ==> entries@[j] == 0,
            decreases n - i,
        {
            entries.push(0);
            i = i + 1;
        }
        ZBuffer { width, height, entries }
    }

    /// Records that `object_index` fully and opaquely covers the tile at
    /// `coords`; the greatest index recorded at a tile wins.
    pub fn record_solid(&mut self, coords: TileCoords, object_index: u16)
        requires
            old(self).wf(),
            old(self).in_bounds(coords),
        ensures
            final(self).wf(),
            final(self).width == old(self).width,
            final(self).height == old(self).height,
            final(self).entries@ == old(self).entries@.update(
                old(self).spec_idx(coords),
                spec_max_u32(old(self).entries@[old(self).spec_idx(coords)], (object_index + 1) as u32),
            ),
    {
        proof {
            lemma_grid_index(coords.x as int, coords.y as int, self.width as int, self.height as int);
        }
        let idx = (coords.y as usize) * (self.width as usize) + (coords.x as usize);
        let candidate = object_index as u32 + 1;
        if self.entries[idx] < candidate {
            self.entries[idx] = candidate;
        } else {
            proof {
                assert(self.entries@ =~= old(self).entries@.update(
                    old(self).spec_idx(coords),
                    spec_max_u32(old(self).entries@[old(self).spec_idx(coords)], (object_index + 1) as u32),
                ));
            }
        }
    }

    /// Tests whether the object at `object_index` is visible at `coords`.
    pub fn test(&self, coords: TileCoords, object_index: u32) -> (r: bool)
        requires
            self.wf(),
            self.in_bounds(coords),
        ensures
            r == self.spec_test(coords, object_index),
            r == (self.entries@[self.spec_idx(coords)] <= object_index + 1),
    {
        proof {
            lemma_grid_index(coords.x as int, coords.y as int, self.width as int, self.height as int);
        }
        let idx = (coords.y as usize) * (self.width as usize) + (coords.x as usize);
        let entry = self.entries[idx];
        if object_index < 0xffff_ffff {
            entry <= object_index + 1
        } else {
            true
        }
    }
}

/// The solid tiles recorded among the first `n` entries (row-major, grid
/// width `width`) whose covering object index lies in `first..last`.
pub open spec fn spec_solid_tiles_upto(
    entries: Seq<u32>,
    width: int,
    first: u32,
    last: u32,
    n: int,
) -> Seq<SolidTile>
    decreases n,
{
    if n <= 0 {
        Seq::empty()
    } else {
        let prev = spec_solid_tiles_upto(entries, width, first, last, n - 1);
        let e = entries[n - 1];
        if first < e && e <= last {
            prev.push(
                SolidTile {
                    tile_x: ((n - 1) % width) as u16,
                    tile_y: ((n - 1) / width) as u16,
                    object_index: (e - 1) as u16,
                },
            )
        } else {
            prev
        }
    }
}

/// All solid tiles whose covering object index lies in `first..last`, in
/// row-major tile order.
pub open spec fn spec_solid_tiles(entries: Seq<u32>, width: int, first: u32, last: u32) -> Seq<
    SolidTile,
> {
    spec_solid_tiles_upto(entries, width, first, last, entries.len() as int)
}

impl ZBuffer {
    /// Produces the full list of solid tiles covered by an object whose index
    /// lies in `first..last`, attributed to the topmost such object.
    pub fn build_solid_tiles(&self, first: u32, last: u32) -> (r: Vec<SolidTile>)
        requires
            self.wf(),
            first <= last,
            last <= 0x10000,
        ensures
            r@ == spec_solid_tiles(self.entries@, self.width as int, first, last),
    {
        let mut r: Vec<SolidTile> = Vec::new();
        let mut y: u16 = 0;
        while y < self.height
            invariant
                self.wf(),
                first <= last <= 0x10000,
                y <= self.height,
                r@ == spec_solid_tiles_upto(
                    self.entries@,
                    self.width as int,
                    first,
                    last,
                    y as int * self.width as int,
                ),
            decreases self.height - y,
        {
            let mut x: u16 = 0;
            while x < self.width
                invariant
                    self.wf(),
                    first <= last <= 0x10000,
                    y < self.height,
                    x <= self.width,
                    r@ == spec_solid_tiles_upto(
                        self.entries@,
                        self.width as int,
                        first,
                        last,
                        y as int * self.width as int + x as int,
                    ),
                decreases self.width - x,
            {
                proof {
                    lemma_grid_index(x as int, y as int, self.width as int, self.height as int);
                    lemma_row_major(x as int, y as int, self.width as int);
                }
                let idx = (y as usize) * (self.width as usize) + (x as usize);
                let e = self.entries[idx];
                if first < e && e <= last {
                    r.push(SolidTile { tile_x: x, tile_y: y, object_index: (e - 1) as u16 });
                }
                x = x + 1;
            }
            proof {
                assert(y as int * self.width as int + self.width as int == (y as int + 1)
                    * self.width as int) by (nonlinear_arith);
            }
            y = y + 1;
        }
        proof {
            assert(y as int * self.width as int == self.entries@.len() as int) by (nonlinear_arith)
                requires
                    y == self.height,
                    self.entries@.len() == self.width * self.height,
            ;
        }
        r
    }
}

/// In a row-major grid of width `w`, the entry at index `y * w + x` lies in
/// column `x` of row `y`.
proof fn lemma_row_major(x: int, y: int, w: int)
    requires
        0 <= x < w,
        0 <= y,
    ensures
        (y * w + x) % w == x,
        (y * w + x) / w == y,
{
    assert((y * w + x) % w == x && (y * w + x) / w == y) by (nonlinear_arith)
        requires
            0 <= x < w,
            0 <= y,
    ;
}

/// The three scene-build-scoped containers: fill spans and alpha-tile records
/// appended during per-object tiling, and the z-buffer recording solid
/// coverage. All three are drained into commands once tiling is done.
pub struct SharedBuffers {
    pub fills: Vec<Fill>,
    pub alpha_tiles: Vec<AlphaTile>,
    pub z_buffer: ZBuffer,
}

impl SharedBuffers {
    pub open spec fn wf(self) -> bool {
        self.z_buffer.wf()
    }

    /// Fresh buffers for one build over a `width` by `height` tile grid.
    pub fn new(width: u16, height: u16) -> (r: SharedBuffers)
        requires
            width <= MAX_TILE_COORD,
            height <= MAX_TILE_COORD,
        ensures
            r.wf(),
            r.fills@ == Seq::<Fill>::empty(),
            r.alpha_tiles@ == Seq::<AlphaTile>::empty(),
            r.z_buffer.width == width,
            r.z_buffer.height == height,
            forall|i: int| 0 <= i < r.z_buffer.entries@.len() ==> r.z_buffer.entries@[i] == 0,
    {
        let r = SharedBuffers {
            fills: Vec::new(),
            alpha_tiles: Vec::new(),
            z_buffer: ZBuffer::new(width, height),
        };
        proof {
            assert(r.fills@ =~= Seq::<Fill>::empty());
            assert(r.alpha_tiles@ =~= Seq::<AlphaTile>::empty());
        }
        r
    }

    /// Copies the fill spans in `start..end` out of the buffer.
    pub fn fill_range_to_vec(&self, start: usize, end: usize) -> (r: Vec<Fill>)
        requires
            start <= end <= self.fills@.len(),
        ensures
            r@ == self.fills@.subrange(start as int, end as int),
    {
        let mut r: Vec<Fill> = Vec::new();
        let mut i = start;
        while i < end
            invariant
                start <= i <= end <= self.fills@.len(),
                r@ == self.fills@.subrange(start as int, i as int),
            decreases end - i,
        {
            r.push(self.fills[i]);
            proof {
                assert(r@ =~= self.fills@.subrange(start as int, i + 1 as int));
            }
            i = i + 1;
        }
        r
    }
}

pub open spec fn spec_max_u32(a: u32, b: u32) -> u32 {
    if a < b {
        b
    } else {
        a
    }
}

/// A tile `(x, y)` inside a `w` by `h` grid has a row-major index inside the
/// grid's entry count.
proof fn lemma_grid_index(x: int, y: int, w: int, h: int)
    requires
        0 <= x < w,
        0 <= y < h,
    ensures
        0 <= y * w + x < w * h,
        y * w + x < 0x1000000 || w > 4096 || h > 4096,
{
    assert(0 <= y * w + x < w * h) by (nonlinear_arith)
        requires
            0 <= x < w,
            0 <= y < h,
    ;
    assert(y * w + x < 0x1000000 || w > 4096 || h > 4096) by (nonlinear_arith)
        requires
            0 <= x < w,
            0 <= y < h,
    ;
}

} // verus!
