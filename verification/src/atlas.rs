//! The glyph atlas: shelf packing, dynamic growth, row-byte padding for
//! texture upload, and the per-character glyph cache.
//!
//! The atlas itself is one square single-channel texture on the GPU; this
//! module owns all the placement and lifecycle arithmetic, while the GPU
//! resources and the rasterizer live outside the crate.

use vstd::prelude::*;

verus! {

/// Side length the atlas texture starts at.
pub const ATLAS_INITIAL_SIZE: u32 = 2048;

/// Side length the atlas never grows beyond.
pub const ATLAS_MAX_SIZE: u32 = 4096;

/// One-pixel margin kept around every packed glyph to prevent bilinear
/// bleed between neighbours.
pub const ATLAS_PADDING: u32 = 1;

/// Minimum row-byte alignment the texture upload path requires.
pub const COPY_BYTES_PER_ROW_ALIGNMENT: u32 = 256;

/// Shelf-packing cursor state over one square atlas of side `size`:
/// boxes go left to right in the current row; a box that does not fit the
/// remaining row width starts a new row below the tallest box placed so
/// far.
#[derive(Debug, Clone, Copy, PartialEq, Eq, Structural)]
pub struct AtlasPacker {
    pub size: u32,
    pub cursor_x: u32,
    pub cursor_y: u32,
    pub row_height: u32,
}

/// Addition on u32 that sticks at the maximum instead of wrapping.
pub open spec fn spec_sat_add_u32(a: u32, b: u32) -> u32 {
    if a + b > u32::MAX {
        u32::MAX
    } else {
        (a + b) as u32
    }
}

impl AtlasPacker {
    /// The cursors never leave the square.
    pub open spec fn wf(self) -> bool {
        self.cursor_x <= self.size && self.row_height <= self.size
    }

    /// Whether a box of width `w` forces a wrap to a new row.
    pub open spec fn spec_wraps(self, w: u32) -> bool {
        self.cursor_x + w > self.size
    }

    /// The packer state after the row wrap that `allocate` performs before
    /// its vertical check (the identity when no wrap is needed).
    pub open spec fn spec_after_wrap(self, w: u32) -> AtlasPacker {
        if self.spec_wraps(w) {
            AtlasPacker {
                cursor_x: 0,
                cursor_y: spec_sat_add_u32(self.cursor_y, self.row_height),
                row_height: 0,
                ..self
            }
        } else {
            self
        }
    }

    /// What `allocate` returns: the top-left corner of the placed box, or
    /// None when the box exceeds the atlas side or the remaining height.
    pub open spec fn spec_allocate_result(self, w: u32, h: u32) -> Option<(u32, u32)> {
        if w > self.size || h > self.size {
            None
        } else {
            let p = self.spec_after_wrap(w);
            if p.cursor_y + h > p.size {
                None
            } else {
                Some((p.cursor_x, p.cursor_y))
            }
        }
    }

    /// The packer state after `allocate`: oversized boxes leave it alone, a
    /// vertical failure keeps the wrap it already performed, and a placed
    /// box advances the cursor and raises the row.
    pub open spec fn spec_allocate_state(self, w: u32, h: u32) -> AtlasPacker {
        if w > self.size || h > self.size {
            self
        } else {
            let p = self.spec_after_wrap(w);
            if p.cursor_y + h > p.size {
                p
            } else {
                AtlasPacker {
                    cursor_x: (p.cursor_x + w) as u32,
                    row_height: if h > p.row_height {
                        h
                    } else {
                        p.row_height
                    },
                    ..p
                }
            }
        }
    }

    /// A fresh packer over a square of side `size`.
    pub fn new(size: u32) -> (p: Self)
        ensures
            p == (AtlasPacker { size, cursor_x: 0, cursor_y: 0, row_height: 0 }),
            p.wf(),
    {
        Self { size, cursor_x: 0, cursor_y: 0, row_height: 0 }
    }

    /// Forget every placement and adopt a (possibly new) side length.
    pub fn reset(&mut self, size: u32)
        ensures
            *final(self) == (AtlasPacker { size, cursor_x: 0, cursor_y: 0, row_height: 0 }),
            final(self).wf(),
    {
        self.size = size;
        self.cursor_x = 0;
        self.cursor_y = 0;
        self.row_height = 0;
    }

    /// Shelf-pack a `width` x `height` box: place it in the current row,
    /// wrapping to a new row when the remaining width is short, and fail
    /// when the atlas side or the remaining height is exceeded.
    pub fn allocate(&mut self, width: u32, height: u32) -> (r: Option<(u32, u32)>)
        requires
            old(self).wf(),
        ensures
            final(self).wf(),
            r == old(self).spec_allocate_result(width, height),
            *final(self) == old(self).spec_allocate_state(width, height),
    {
        if width > self.size || height > self.size {
            return None;
        }
        if width > self.size - self.cursor_x {
            self.cursor_x = 0;
            self.cursor_y = if self.row_height > u32::MAX - self.cursor_y {
                u32::MAX
            } else {
                self.cursor_y + self.row_height
            };
            self.row_height = 0;
        }
        if self.cursor_y > self.size || height > self.size - self.cursor_y {
            return None;
        }
        let pos: (u32, u32) = (self.cursor_x, self.cursor_y);
        self.cursor_x = self.cursor_x + width;
        if height > self.row_height {
            self.row_height = height;
        }
        Some(pos)
    }
}

/// Addition on u32 that sticks at the maximum instead of wrapping.
pub fn sat_add_u32(a: u32, b: u32) -> (r: u32)
    ensures
        r == spec_sat_add_u32(a, b),
{
    if a > u32::MAX - b {
        u32::MAX
    } else {
        a + b
    }
}

/// Outcome of an atlas allocation attempt that may grow the atlas.
#[derive(Debug, Clone, Copy, PartialEq, Eq, Structural)]
pub enum AtlasPlacement {
    /// The padded box was placed at (x, y) in the current atlas.
    Placed { x: u32, y: u32 },
    /// The atlas was rebuilt at `new_size` — every cached glyph and the
    /// old texture are stale — and the padded box was placed at (x, y).
    Rebuilt { new_size: u32, x: u32, y: u32 },
    /// No room even at the maximum size: this glyph is skipped.
    Skipped,
}

/// The shelf packer together with the atlas growth policy: on a failed
/// allocation below the maximum size, the atlas doubles (capped at the
/// maximum) and the allocation is retried once; at the maximum, the glyph
/// is skipped.
#[derive(Debug, Clone, Copy)]
pub struct AtlasAllocator {
    pub packer: AtlasPacker,
    pub max_size: u32,
}

impl AtlasAllocator {
    /// The packer stays inside the square, the square never exceeds the
    /// cap, and the cap leaves room to double without overflowing.
    pub open spec fn wf(self) -> bool {
        self.packer.wf() && self.packer.size <= self.max_size && self.max_size <= 0x4000_0000
    }

    /// The side length after one growth step: double, capped at the
    /// maximum.
    pub open spec fn spec_grown_size(self) -> u32 {
        if 2 * (self.packer.size as int) > self.max_size as int {
            self.max_size
        } else {
            (2 * self.packer.size) as u32
        }
    }

    pub open spec fn spec_size(self) -> u32 {
        self.packer.size
    }

    pub fn new(initial_size: u32, max_size: u32) -> (a: Self)
        requires
            initial_size <= max_size,
            max_size <= 0x4000_0000,
        ensures
            a.wf(),
            a.packer == (AtlasPacker {
                size: initial_size,
                cursor_x: 0,
                cursor_y: 0,
                row_height: 0,
            }),
            a.max_size == max_size,
    {
        Self { packer: AtlasPacker::new(initial_size), max_size }
    }

    pub fn size(&self) -> (r: u32)
        ensures
            r == self.spec_size(),
    {
        self.packer.size
    }

    /// Forget every placement, keeping the current size and cap.
    pub fn clear(&mut self)
        requires
            old(self).wf(),
        ensures
            final(self).wf(),
            final(self).packer == (AtlasPacker {
                size: old(self).packer.size,
                cursor_x: 0,
                cursor_y: 0,
                row_height: 0,
            }),
            final(self).max_size == old(self).max_size,
    {
        let size: u32 = self.packer.size;
        self.packer.reset(size);
    }

    /// Allocate a box with the one-pixel bleed margin on every side,
    /// growing the atlas (once) when it does not fit: a failed allocation
    /// at size S leaves the atlas at min(2S, max), and at the maximum size
    /// the box is skipped rather than looping.
    pub fn allocate_padded(&mut self, width: u32, height: u32) -> (r: AtlasPlacement)
        requires
            old(self).wf(),
        ensures
            final(self).wf(),
            final(self).max_size == old(self).max_size,
            final(self).packer.size <= old(self).max_size,
            ({
                let pw = spec_sat_add_u32(width, (2 * ATLAS_PADDING) as u32);
                let ph = spec_sat_add_u32(height, (2 * ATLAS_PADDING) as u32);
                match old(self).packer.spec_allocate_result(pw, ph) {
                    Some(pos) => r == (AtlasPlacement::Placed { x: pos.0, y: pos.1 })
                        && final(self).packer == old(self).packer.spec_allocate_state(pw, ph),
                    None => if old(self).packer.size < old(self).max_size {
                        let fresh = AtlasPacker {
                            size: old(self).spec_grown_size(),
                            cursor_x: 0,
                            cursor_y: 0,
                            row_height: 0,
                        };
                        final(self).packer == fresh.spec_allocate_state(pw, ph) && match fresh.spec_allocate_result(pw, ph) {
                            Some(pos) => r == (AtlasPlacement::Rebuilt {
                                new_size: fresh.size,
                                x: pos.0,
                                y: pos.1,
                            }),
                            None => r == AtlasPlacement::Skipped,
                        }
                    } else {
                        r == AtlasPlacement::Skipped && final(self).packer == old(
                            self,
                        ).packer.spec_allocate_state(pw, ph)
                    },
                }
            }),
    {
        let pw: u32 = sat_add_u32(width, 2 * ATLAS_PADDING);
        let ph: u32 = sat_add_u32(height, 2 * ATLAS_PADDING);
        if let Some(pos) = self.packer.allocate(pw, ph) {
            return AtlasPlacement::Placed { x: pos.0, y: pos.1 };
        }
        if self.packer.size < self.max_size {
            let doubled: u32 = 2 * self.packer.size;
            let new_size: u32 = if doubled > self.max_size {
                self.max_size
            } else {
                doubled
            };
            self.packer.reset(new_size);
            match self.packer.allocate(pw, ph) {
                Some(pos) => AtlasPlacement::Rebuilt { new_size, x: pos.0, y: pos.1 },
                None => AtlasPlacement::Skipped,
            }
        } else {
            AtlasPlacement::Skipped
        }
    }
}

/// Round `value` up to the next multiple of `alignment` (the identity for
/// alignment zero).
pub fn align_to(value: u32, alignment: u32) -> (r: u32)
    requires
        value + alignment <= u32::MAX,
    ensures
        alignment == 0 ==> r == value,
        alignment > 0 ==> r % alignment == 0 && value <= r && r < value + alignment,
{
    if alignment == 0 {
        return value;
    }
    let sum: u32 = value + alignment - 1;
    let q: u32 = sum / alignment;
    proof {
        vstd::arithmetic::div_mod::lemma_fundamental_div_mod(sum as int, alignment as int);
        vstd::arithmetic::div_mod::lemma_mod_multiples_basic(q as int, alignment as int);
        assert(q as int == sum as int / alignment as int);
        assert(sum as int == alignment as int * (q as int) + sum as int % alignment as int);
        assert(alignment as int * (q as int) == q as int * (alignment as int)) by (nonlinear_arith);
        assert(q as int * (alignment as int) <= sum as int);
        assert(q as int * (alignment as int) >= sum as int - (alignment as int - 1));
    }
    q * alignment
}

/// Re-lay a tightly packed `width` x `height` single-channel image into
/// rows of `padded_bytes_per_row` bytes, zero-filling the pad, as the
/// texture upload path requires.
pub fn pad_glyph_rows(
    pixels: &Vec<u8>,
    width: usize,
    height: usize,
    padded_bytes_per_row: usize,
) -> (r: Vec<u8>)
    requires
        pixels@.len() == width * height,
        width <= padded_bytes_per_row,
        padded_bytes_per_row * height <= usize::MAX,
    ensures
        r@.len() == padded_bytes_per_row * height,
        forall|row: int, col: int|
            0 <= row < height && 0 <= col < width ==> #[trigger] r@[row * (
            padded_bytes_per_row as int) + col] == pixels@[row * (width as int) + col],
        forall|row: int, col: int|
            0 <= row < height && width <= col < padded_bytes_per_row ==> #[trigger] r@[row * (
            padded_bytes_per_row as int) + col] == 0,
{
    let pixel_count: usize = pixels.len();
    let mut out: Vec<u8> = Vec::new();
    let mut src: usize = 0;
    let mut row: usize = 0;
    while row < height
        invariant
            row <= height,
            pixels@.len() == width * height,
            width * height <= usize::MAX,
            width <= padded_bytes_per_row,
            padded_bytes_per_row * height <= usize::MAX,
            src == row * width,
            out@.len() == row * padded_bytes_per_row,
            forall|r2: int, c: int|
                0 <= r2 < row && 0 <= c < width ==> #[trigger] out@[r2 * (
                padded_bytes_per_row as int) + c] == pixels@[r2 * (width as int) + c],
            forall|r2: int, c: int|
                0 <= r2 < row && width <= c < padded_bytes_per_row ==> #[trigger] out@[r2 * (
                padded_bytes_per_row as int) + c] == 0,
        decreases height - row,
    {
        proof {
            vstd::arithmetic::mul::lemma_mul_inequality(
                row as int + 1,
                height as int,
                padded_bytes_per_row as int,
            );
            vstd::arithmetic::mul::lemma_mul_is_distributive_add_other_way(
                padded_bytes_per_row as int,
                row as int,
                1,
            );
            vstd::arithmetic::mul::lemma_mul_is_commutative(
                height as int,
                padded_bytes_per_row as int,
            );
            vstd::arithmetic::mul::lemma_mul_inequality(row as int + 1, height as int, width as int);
            vstd::arithmetic::mul::lemma_mul_is_distributive_add_other_way(
                width as int,
                row as int,
                1,
            );
            vstd::arithmetic::mul::lemma_mul_is_commutative(height as int, width as int);
        }
        let ghost base = out@;
        let ghost row_dst: int = row * (padded_bytes_per_row as int);
        let mut col: usize = 0;
        while col < width
            invariant
                col <= width,
                row < height,
                pixels@.len() == width * height,
                width <= padded_bytes_per_row,
                src == row * width + col,
                row * width + width <= width * height,
                width * height <= usize::MAX,
                row_dst == row * (padded_bytes_per_row as int),
                row_dst + padded_bytes_per_row <= padded_bytes_per_row * height,
                base.len() == row_dst,
                out@.len() == row_dst + col,
                forall|i: int| 0 <= i < row_dst ==> #[trigger] out@[i] == base[i],
                forall|c: int|
                    0 <= c < col ==> #[trigger] out@[row_dst + c] == pixels@[row * (width as int)
                        + c],
            decreases width - col,
        {
            out.push(pixels[src]);
            src = src + 1;
            col = col + 1;
        }
        while col < padded_bytes_per_row
            invariant
                width <= col <= padded_bytes_per_row,
                row < height,
                pixels@.len() == width * height,
                width <= padded_bytes_per_row,
                src == row * width + width,
                row_dst == row * (padded_bytes_per_row as int),
                row_dst + padded_bytes_per_row <= padded_bytes_per_row * height,
                base.len() == row_dst,
                out@.len() == row_dst + col,
                forall|i: int| 0 <= i < row_dst ==> #[trigger] out@[i] == base[i],
                forall|c: int|
                    0 <= c < width ==> #[trigger] out@[row_dst + c] == pixels@[row * (
                    width as int) + c],
                forall|c: int| width <= c < col ==> #[trigger] out@[row_dst + c] == 0,
            decreases padded_bytes_per_row - col,
        {
            out.push(0);
            col = col + 1;
        }
        row = row + 1;
        proof {
            vstd::arithmetic::mul::lemma_mul_is_distributive_add_other_way(
                padded_bytes_per_row as int,
                row as int - 1,
                1,
            );
            vstd::arithmetic::mul::lemma_mul_is_distributive_add_other_way(
                width as int,
                row as int - 1,
                1,
            );
            assert forall|r2: int, c: int|
                0 <= r2 < row && 0 <= c < width implies #[trigger] out@[r2 * (
            padded_bytes_per_row as int) + c] == pixels@[r2 * (width as int) + c] by {
                if r2 == row - 1 {
                    assert(out@[row_dst + c] == pixels@[(row - 1) * (width as int) + c]);
                } else {
                    vstd::arithmetic::mul::lemma_mul_inequality(
                        r2 + 1,
                        row as int - 1,
                        padded_bytes_per_row as int,
                    );
                    vstd::arithmetic::mul::lemma_mul_is_distributive_add_other_way(
                        padded_bytes_per_row as int,
                        r2,
                        1,
                    );
                    vstd::arithmetic::mul::lemma_mul_nonnegative(r2, padded_bytes_per_row as int);
                    assert(out@[r2 * (padded_bytes_per_row as int) + c] == base[r2 * (
                    padded_bytes_per_row as int) + c]);
                }
            };
            assert forall|r2: int, c: int|
                0 <= r2 < row && width <= c < padded_bytes_per_row implies #[trigger] out@[r2 * (
            padded_bytes_per_row as int) + c] == 0 by {
                if r2 == row - 1 {
                    assert(out@[row_dst + c] == 0);
                } else {
                    vstd::arithmetic::mul::lemma_mul_inequality(
                        r2 + 1,
                        row as int - 1,
                        padded_bytes_per_row as int,
                    );
                    vstd::arithmetic::mul::lemma_mul_is_distributive_add_other_way(
                        padded_bytes_per_row as int,
                        r2,
                        1,
                    );
                    vstd::arithmetic::mul::lemma_mul_nonnegative(r2, padded_bytes_per_row as int);
                    assert(out@[r2 * (padded_bytes_per_row as int) + c] == base[r2 * (
                    padded_bytes_per_row as int) + c]);
                }
            };
        }
    }
    proof {
        vstd::arithmetic::mul::lemma_mul_is_commutative(height as int, padded_bytes_per_row as int);
    }
    out
}

/// Whether `n` is a power of two.
pub open spec fn spec_is_pow2(n: int) -> bool
    decreases n,
{
    if n <= 0 {
        false
    } else if n == 1 {
        true
    } else {
        n % 2 == 0 && spec_is_pow2(n / 2)
    }
}

/// The GPU instance-buffer capacity that holds `required` instances: the
/// current capacity when it already suffices, otherwise the smallest power
/// of two at least `required` and at least the 64-instance floor — so the
/// buffer is never reallocated while its size is unchanged.
pub fn instance_capacity(required: usize, current: usize) -> (r: usize)
    requires
        required <= usize::MAX / 2,
    ensures
        required <= current ==> r == current,
        required > current ==> r >= required && r >= 64 && spec_is_pow2(r as int) && (r == 64 || r
            / 2 < required),
{
    if required <= current {
        return current;
    }
    let mut cap: usize = 64;
    proof {
        reveal_with_fuel(spec_is_pow2, 8);
        assert(spec_is_pow2(64));
    }
    while cap < required
        invariant
            required <= usize::MAX / 2,
            64 <= cap,
            spec_is_pow2(cap as int),
            cap == 64 || cap / 2 < required,
        decreases 2 * required - cap,
    {
        cap = cap * 2;
    }
    cap
}

/// Cached geometry of one glyph: its pixel rectangle inside the atlas
/// (already past the bleed margin), the bearing from the pen origin to its
/// bounding box, and its horizontal advance — all in pixels at the font
/// size the cache is tagged with.  A zero-area entry stands for a glyph
/// with nothing to draw (a space) and keeps only its advance.
#[derive(Debug, Clone, Copy, PartialEq, Eq, Structural)]
pub struct GlyphInfo {
    pub x: u32,
    pub y: u32,
    pub width: u32,
    pub height: u32,
    pub bearing_x: i32,
    pub bearing_y: i32,
    pub advance: u32,
}

/// What caching a freshly rasterized glyph did.  When `rebuilt_size` is
/// set, the atlas texture must be recreated at that size and every
/// previously returned UV rectangle is stale (the cache has already been
/// cleared).  When `stored` is set, the glyph's rows belong at
/// `(info.x, info.y)`; otherwise the glyph did not fit and is skipped.
#[derive(Debug, Clone, Copy, PartialEq, Eq, Structural)]
pub struct GlyphInsert {
    pub stored: Option<GlyphInfo>,
    pub rebuilt_size: Option<u32>,
}

/// The per-character glyph cache over the growable atlas.  Entries are
/// valid only for one font size; changing the size clears the cache and
/// resets the packer wholesale rather than versioning entries.
#[derive(Debug)]
pub struct GlyphStore {
    pub font_px: u32,
    pub glyphs: std::collections::HashMap<u32, GlyphInfo>,
    pub atlas: AtlasAllocator,
}

impl GlyphStore {
    pub open spec fn wf(self) -> bool {
        self.atlas.wf()
    }

    /// The cache contents as a map from character code to glyph geometry.
    pub open spec fn spec_glyphs(self) -> Map<u32, GlyphInfo> {
        self.glyphs@
    }

    pub fn new(font_px: u32) -> (s: Self)
        ensures
            s.wf(),
            s.font_px == font_px,
            s.spec_glyphs() == Map::<u32, GlyphInfo>::empty(),
            s.atlas.packer == (AtlasPacker {
                size: ATLAS_INITIAL_SIZE,
                cursor_x: 0,
                cursor_y: 0,
                row_height: 0,
            }),
            s.atlas.max_size == ATLAS_MAX_SIZE,
    {
        Self {
            font_px,
            glyphs: std::collections::HashMap::new(),
            atlas: AtlasAllocator::new(ATLAS_INITIAL_SIZE, ATLAS_MAX_SIZE),
        }
    }

    /// Adopt a new font size: a no-op when unchanged, otherwise the cache
    /// is cleared and the packer reset (the atlas size is kept), since
    /// every cached bearing and advance depends on the size.
    pub fn set_font_px(&mut self, px: u32)
        requires
            old(self).wf(),
        ensures
            final(self).wf(),
            px == old(self).font_px ==> *final(self) == *old(self),
            px != old(self).font_px ==> final(self).font_px == px && final(self).spec_glyphs()
                =~= Map::<u32, GlyphInfo>::empty() && final(self).atlas.packer == (AtlasPacker {
                size: old(self).atlas.packer.size,
                cursor_x: 0,
                cursor_y: 0,
                row_height: 0,
            }) && final(self).atlas.max_size == old(self).atlas.max_size,
    {
        if px == self.font_px {
            return ;
        }
        self.font_px = px;
        self.glyphs.clear();
        self.atlas.clear();
    }

    /// The cached geometry of `ch`, if any.
    pub fn lookup(&self, ch: char) -> (r: Option<GlyphInfo>)
        ensures
            match r {
                Some(info) => self.spec_glyphs().contains_key(ch as u32) && info
                    == self.spec_glyphs()[ch as u32],
                None => !self.spec_glyphs().contains_key(ch as u32),
            },
    {
        match self.glyphs.get(&(ch as u32)) {
            Some(info) => Some(*info),
            None => None,
        }
    }

    /// Cache a glyph that has nothing to draw (no outline, or a zero-area
    /// bounding box): a zero-size entry with the correct advance, skipped
    /// from drawing but answering cache lookups.
    pub fn insert_blank(&mut self, ch: char, advance: u32) -> (info: GlyphInfo)
        requires
            old(self).wf(),
        ensures
            final(self).wf(),
            info == (GlyphInfo {
                x: 0,
                y: 0,
                width: 0,
                height: 0,
                bearing_x: 0,
                bearing_y: 0,
                advance,
            }),
            final(self).spec_glyphs() == old(self).spec_glyphs().insert(ch as u32, info),
            final(self).font_px == old(self).font_px,
            final(self).atlas == old(self).atlas,
    {
        let info = GlyphInfo { x: 0, y: 0, width: 0, height: 0, bearing_x: 0, bearing_y: 0, advance };
        self.glyphs.insert(ch as u32, info);
        info
    }

    /// Cache a rasterized glyph of the given pixel box, allocating atlas
    /// space for it (growing the atlas when needed).  The entry records
    /// the rectangle just inside the bleed margin; a glyph that does not
    /// fit even at the maximum size is skipped and the cache is left
    /// without an entry for it.
    pub fn insert_rasterized(
        &mut self,
        ch: char,
        width: u32,
        height: u32,
        bearing_x: i32,
        bearing_y: i32,
        advance: u32,
    ) -> (r: GlyphInsert)
        requires
            old(self).wf(),
            width > 0,
            height > 0,
        ensures
            final(self).wf(),
            final(self).font_px == old(self).font_px,
            final(self).atlas.max_size == old(self).atlas.max_size,
            // the atlas never shrinks and never exceeds its cap
            old(self).atlas.packer.size <= final(self).atlas.packer.size <= old(
                self,
            ).atlas.max_size,
            // when and how the texture was rebuilt
            match r.rebuilt_size {
                Some(ns) => ns == final(self).atlas.packer.size && old(self).atlas.packer.size
                    < ns && ns == old(self).atlas.spec_grown_size(),
                None => final(self).atlas.packer.size == old(self).atlas.packer.size,
            },
            // success is owed exactly when one of the two shelf-packing
            // attempts (current atlas, then the grown atlas) succeeds
            ({
                let pw = spec_sat_add_u32(width, (2 * ATLAS_PADDING) as u32);
                let ph = spec_sat_add_u32(height, (2 * ATLAS_PADDING) as u32);
                let fresh = AtlasPacker {
                    size: old(self).atlas.spec_grown_size(),
                    cursor_x: 0,
                    cursor_y: 0,
                    row_height: 0,
                };
                r.stored.is_some() <==> old(self).atlas.packer.spec_allocate_result(pw, ph).is_some()
                    || (old(self).atlas.packer.size < old(self).atlas.max_size
                    && fresh.spec_allocate_result(pw, ph).is_some())
            }),
            ({
                let glyphs_after = final(self).spec_glyphs();
                let size_after = final(self).atlas.packer.size;
                let base = if r.rebuilt_size is Some {
                    Map::<u32, GlyphInfo>::empty()
                } else {
                    old(self).spec_glyphs()
                };
                match r.stored {
                    Some(info) => info.width == width && info.height == height && info.bearing_x
                        == bearing_x && info.bearing_y == bearing_y && info.advance == advance
                        && info.x + width <= size_after && info.y + height <= size_after
                        && ATLAS_PADDING <= info.x && ATLAS_PADDING <= info.y && glyphs_after
                        =~= base.insert(ch as u32, info),
                    None => glyphs_after =~= base,
                }
            }),
    {
        let old_size: u32 = self.atlas.size();
        let placement = self.atlas.allocate_padded(width, height);
        match placement {
            AtlasPlacement::Placed { x, y } => {
                let info = GlyphInfo {
                    x: x + ATLAS_PADDING,
                    y: y + ATLAS_PADDING,
                    width,
                    height,
                    bearing_x,
                    bearing_y,
                    advance,
                };
                self.glyphs.insert(ch as u32, info);
                GlyphInsert { stored: Some(info), rebuilt_size: None }
            },
            AtlasPlacement::Rebuilt { new_size, x, y } => {
                self.glyphs.clear();
                let info = GlyphInfo {
                    x: x + ATLAS_PADDING,
                    y: y + ATLAS_PADDING,
                    width,
                    height,
                    bearing_x,
                    bearing_y,
                    advance,
                };
                self.glyphs.insert(ch as u32, info);
                GlyphInsert { stored: Some(info), rebuilt_size: Some(new_size) }
            },
            AtlasPlacement::Skipped => {
                let new_size: u32 = self.atlas.size();
                if new_size != old_size {
                    self.glyphs.clear();
                    GlyphInsert { stored: None, rebuilt_size: Some(new_size) }
                } else {
                    GlyphInsert { stored: None, rebuilt_size: None }
                }
            },
        }
    }
}

} // verus!
