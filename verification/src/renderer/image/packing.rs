//! Packing fixed-size glyph bitmaps into a row-major grid of atlas slots.

use vstd::prelude::*;

use crate::renderer::image::blit::{at, blit_rows, blitted, lemma_row_major_bound};
use crate::renderer::image::rgba::{image_bytes, rgba_byte_len, zeroed_rgba_buffer};
use crate::renderer::image::{GlyphAtlasImage, GlyphBitmap, GlyphImageError};
use crate::renderer::atlas::GlyphEntry;

verus! {

/// Largest slot index among `glyphs`, or 0 when there are none.
pub open spec fn max_slot(glyphs: Seq<GlyphBitmap>) -> u32
    decreases glyphs.len(),
{
    if glyphs.len() == 0 {
        0
    } else {
        let rest = max_slot(glyphs.drop_last());
        let last = glyphs.last().entry.slot;
        if last > rest { last } else { rest }
    }
}

/// The set of atlas slots that `glyphs` occupy.
pub open spec fn slot_set(glyphs: Seq<GlyphBitmap>) -> Set<u32>
    decreases glyphs.len(),
{
    if glyphs.len() == 0 {
        Set::empty()
    } else {
        slot_set(glyphs.drop_last()).insert(glyphs.last().entry.slot)
    }
}

/// The slots of `glyphs` form a finite set holding exactly the glyphs' slots.
pub proof fn lemma_slot_set(glyphs: Seq<GlyphBitmap>)
    ensures
        slot_set(glyphs).finite(),
        slot_set(glyphs).len() <= glyphs.len(),
        forall|s: u32| #[trigger] slot_set(glyphs).contains(s) <==> exists|i: int| 0 <= i < glyphs.len() && glyphs[i].entry.slot == s,
    decreases glyphs.len(),
{
    if glyphs.len() > 0 {
        let rest = glyphs.drop_last();
        lemma_slot_set(rest);
        assert forall|s: u32| #[trigger] slot_set(glyphs).contains(s) <==> exists|i: int| 0 <= i < glyphs.len() && glyphs[i].entry.slot == s by {
            if slot_set(glyphs).contains(s) && s != glyphs.last().entry.slot {
                let i = choose|i: int| 0 <= i < rest.len() && rest[i].entry.slot == s;
                assert(glyphs[i] == rest[i]);
            }
            if exists|i: int| 0 <= i < glyphs.len() && glyphs[i].entry.slot == s {
                let i = choose|i: int| 0 <= i < glyphs.len() && glyphs[i].entry.slot == s;
                if i < glyphs.len() - 1 {
                    assert(rest[i] == glyphs[i]);
                }
            }
        }
    }
}

/// Number of distinct atlas slots among `glyphs`.
fn count_distinct_slots(glyphs: &[GlyphBitmap]) -> (n: usize)
    ensures
        n == slot_set(glyphs@).len(),
{
    let mut n: usize = 0;
    let mut i: usize = 0;
    while i < glyphs.len()
        invariant
            0 <= i <= glyphs@.len(),
            n == slot_set(glyphs@.subrange(0, i as int)).len(),
            n <= i,
        decreases glyphs@.len() - i,
    {
        let slot = glyphs[i].entry.slot;
        let mut seen = false;
        let mut j: usize = 0;
        while j < i
            invariant
                0 <= j <= i < glyphs@.len(),
                seen <==> exists|t: int| 0 <= t < j && glyphs@[t].entry.slot == slot,
            decreases i - j,
        {
            if glyphs[j].entry.slot == slot {
                seen = true;
            }
            j = j + 1;
        }
        proof {
            let prefix = glyphs@.subrange(0, i as int);
            let next = glyphs@.subrange(0, i + 1);
            assert(next.drop_last() =~= prefix);
            assert(next.last().entry.slot == slot);
            lemma_slot_set(prefix);
            assert(seen <==> slot_set(prefix).contains(slot)) by {
                if seen {
                    let t = choose|t: int| 0 <= t < i && glyphs@[t].entry.slot == slot;
                    assert(prefix[t] == glyphs@[t]);
                }
                if slot_set(prefix).contains(slot) {
                    let t = choose|t: int| 0 <= t < prefix.len() && prefix[t].entry.slot == slot;
                    assert(prefix[t] == glyphs@[t]);
                }
            }
        }
        if !seen {
            n = n + 1;
        }
        i = i + 1;
    }
    proof {
        assert(glyphs@.subrange(0, glyphs@.len() as int) =~= glyphs@);
    }
    n
}

/// A glyph that does not fill exactly one `sw` x `sh` slot.
pub open spec fn is_misfit(glyph: GlyphBitmap, sw: u32, sh: u32) -> bool {
    glyph.width != sw || glyph.height != sh || glyph.rgba@.len() != image_bytes(sw as int, sh as int)
}

/// Index of the first glyph that does not fill exactly one slot.
pub open spec fn first_misfit(glyphs: Seq<GlyphBitmap>, sw: u32, sh: u32) -> Option<int>
    decreases glyphs.len(),
{
    if glyphs.len() == 0 {
        None
    } else {
        match first_misfit(glyphs.drop_last(), sw, sh) {
            Some(i) => Some(i),
            None => if is_misfit(glyphs.last(), sw, sh) {
                Some(glyphs.len() - 1)
            } else {
                None
            },
        }
    }
}

/// First atlas row of the slot of `glyph`.
pub open spec fn slot_top(glyph: GlyphBitmap, sh: u32, columns: u32) -> int {
    (glyph.entry.slot / columns) * sh
}

/// First atlas row byte of the slot of `glyph`.
pub open spec fn slot_left_byte(glyph: GlyphBitmap, sw: u32, columns: u32) -> int {
    (glyph.entry.slot % columns) * (sw * 4)
}

/// Byte `b` of atlas row `y` after packing `glyphs` into `sw` x `sh` slots laid
/// out `columns` per row; a later glyph for the same slot overwrites an earlier one.
pub open spec fn atlas_byte(glyphs: Seq<GlyphBitmap>, sw: u32, sh: u32, columns: u32, y: int, b: int) -> u8
    decreases glyphs.len(),
{
    if glyphs.len() == 0 {
        0
    } else {
        let g = glyphs.last();
        if slot_top(g, sh, columns) <= y < slot_top(g, sh, columns) + sh && slot_left_byte(g, sw, columns) <= b
            < slot_left_byte(g, sw, columns) + sw * 4 {
            at(g.rgba@, sw * 4, y - slot_top(g, sh, columns), b - slot_left_byte(g, sw, columns))
        } else {
            atlas_byte(glyphs.drop_last(), sw, sh, columns, y, b)
        }
    }
}

/// `out` is the `width` x `height` atlas holding `glyphs` in their slots.
pub open spec fn is_packed_atlas(out: Seq<u8>, glyphs: Seq<GlyphBitmap>, sw: u32, sh: u32, columns: u32, width: int, height: int) -> bool {
    &&& out.len() == image_bytes(width, height)
    &&& forall|y: int, b: int|
        0 <= y < height && 0 <= b < width * 4 ==> #[trigger] at(out, width * 4, y, b) == atlas_byte(
            glyphs,
            sw,
            sh,
            columns,
            y,
            b,
        )
}

/// Every glyph slot is no larger than `max_slot`.
pub proof fn lemma_max_slot_bounds(glyphs: Seq<GlyphBitmap>, i: int)
    requires
        0 <= i < glyphs.len(),
    ensures
        glyphs[i].entry.slot <= max_slot(glyphs),
    decreases glyphs.len(),
{
    if i < glyphs.len() - 1 {
        lemma_max_slot_bounds(glyphs.drop_last(), i);
    }
}

/// The outcome of packing `glyphs` into `sw` x `sh` slots, `columns` per atlas row.
pub open spec fn pack_outcome(sw: u32, sh: u32, columns: u32, glyphs: Seq<GlyphBitmap>, r: Result<GlyphAtlasImage, GlyphImageError>) -> bool {
    if sw == 0 || sh == 0 || columns == 0 {
        r == Err::<GlyphAtlasImage, GlyphImageError>(GlyphImageError::InvalidAtlasSlotLayout)
    } else {
        let rows = max_slot(glyphs) / columns + 1;
        if sw * columns > u32::MAX {
            r == Err::<GlyphAtlasImage, GlyphImageError>(GlyphImageError::AtlasWidthTooLarge)
        } else if sh * rows > u32::MAX {
            r == Err::<GlyphAtlasImage, GlyphImageError>(GlyphImageError::AtlasHeightTooLarge)
        } else if image_bytes(sw * columns, sh * rows) > usize::MAX {
            r == Err::<GlyphAtlasImage, GlyphImageError>(GlyphImageError::RgbaImageDimensionsTooLarge)
        } else {
            match first_misfit(glyphs, sw, sh) {
                Some(i) => r == Err::<GlyphAtlasImage, GlyphImageError>(
                    GlyphImageError::InvalidAtlasGlyphSize {
                        slot: glyphs[i].entry.slot,
                        expected_len: image_bytes(sw as int, sh as int) as usize,
                        slot_width: sw,
                        slot_height: sh,
                    },
                ),
                None => r matches Ok(image) && {
                    &&& image.width == sw * columns
                    &&& image.height == sh * rows
                    &&& image.occupied_slots == slot_set(glyphs).len()
                    &&& is_packed_atlas(image.rgba@, glyphs, sw, sh, columns, image.width as int, image.height as int)
                },
            }
        }
    }
}

/// Copies `glyph` (exactly one slot in size) into its slot of the atlas bytes `atlas_rgba`.
fn copy_glyph_to_atlas_slot(atlas_rgba: &mut Vec<u8>, atlas_width: u32, atlas_height: u32, slot_width: u32, slot_height: u32, columns: u32, glyph: &GlyphBitmap)
    requires
        columns > 0,
        atlas_width == slot_width * columns,
        (glyph.entry.slot / columns) * slot_height + slot_height <= atlas_height,
        old(atlas_rgba)@.len() == image_bytes(atlas_width as int, atlas_height as int),
        image_bytes(atlas_width as int, atlas_height as int) <= usize::MAX,
        !is_misfit(*glyph, slot_width, slot_height),
    ensures
        final(atlas_rgba)@.len() == old(atlas_rgba)@.len(),
        forall|y: int, b: int|
            0 <= y < atlas_height && 0 <= b < atlas_width * 4 ==> #[trigger] at(final(atlas_rgba)@, atlas_width * 4, y, b)
                == blitted(old(atlas_rgba)@, atlas_width * 4, glyph.rgba@, slot_width * 4, slot_height as int,
                slot_top(*glyph, slot_height, columns), slot_left_byte(*glyph, slot_width, columns), y, b),
{
    let slot_col = glyph.entry.slot % columns;
    let slot_row = glyph.entry.slot / columns;
    proof {
        assert(atlas_width * atlas_height * 4 == atlas_height * (atlas_width * 4)) by (nonlinear_arith);
        assert(slot_col * (slot_width * 4) + slot_width * 4 <= atlas_width * 4) by (nonlinear_arith)
            requires slot_col < columns, atlas_width == slot_width * columns;
        assert((slot_row * slot_height + slot_height) * (atlas_width * 4) <= atlas_height * (atlas_width * 4)) by (nonlinear_arith)
            requires slot_row * slot_height + slot_height <= atlas_height, atlas_width >= 0;
        assert(slot_width * slot_height * 4 == slot_height * (slot_width * 4)) by (nonlinear_arith);
        assert(slot_width * 4 <= atlas_width * 4) by (nonlinear_arith)
            requires atlas_width == slot_width * columns, columns >= 1;
        assert(atlas_width * 4 <= usize::MAX || atlas_height == 0) by (nonlinear_arith)
            requires atlas_width * atlas_height * 4 <= usize::MAX, atlas_height >= 0;
    }
    if atlas_height == 0 {
        return;
    }
    proof {
        assert(slot_row * slot_height <= usize::MAX);
        assert(slot_col * (slot_width * 4) <= usize::MAX);
    }
    let n = (atlas_width as usize) * 4;
    let m = (slot_width as usize) * 4;
    let dy = (slot_row as usize) * (slot_height as usize);
    let db = (slot_col as usize) * m;
    blit_rows(atlas_rgba, n, &glyph.rgba, m, slot_height as usize, dy, db);
    proof {
        assert forall|y: int, b: int|
            0 <= y < atlas_height && 0 <= b < atlas_width * 4 implies #[trigger] at(atlas_rgba@, atlas_width * 4, y, b)
                == blitted(old(atlas_rgba)@, atlas_width * 4, glyph.rgba@, slot_width * 4, slot_height as int,
                slot_top(*glyph, slot_height, columns), slot_left_byte(*glyph, slot_width, columns), y, b) by {
            lemma_row_major_bound(y, b, atlas_height as int, atlas_width * 4);
        }
    }
}

impl GlyphAtlasImage {
    /// Pack fixed-size RGBA8 glyph bitmaps into slots.
    pub fn pack_rgba8(slot_width: u32, slot_height: u32, columns: u32, glyphs: &[GlyphBitmap]) -> (r: Result<Self, GlyphImageError>)
        requires
            columns == 1 ==> max_slot(glyphs@) < u32::MAX,
        ensures
            pack_outcome(slot_width, slot_height, columns, glyphs@, r),
    {
        if slot_width == 0 || slot_height == 0 || columns == 0 {
            return Err(GlyphImageError::InvalidAtlasSlotLayout);
        }
        let mut max: u32 = 0;
        let mut i: usize = 0;
        while i < glyphs.len()
            invariant
                0 <= i <= glyphs@.len(),
                max == max_slot(glyphs@.subrange(0, i as int)),
            decreases glyphs@.len() - i,
        {
            proof {
                assert(glyphs@.subrange(0, i + 1).drop_last() =~= glyphs@.subrange(0, i as int));
            }
            if glyphs[i].entry.slot > max {
                max = glyphs[i].entry.slot;
            }
            i = i + 1;
        }
        proof {
            assert(glyphs@.subrange(0, glyphs@.len() as int) =~= glyphs@);
            if columns == 1 {
                assert(max / columns == max);
            } else {
                assert(max / columns < u32::MAX) by (nonlinear_arith)
                    requires columns >= 2, max <= u32::MAX;
            }
        }
        let rows = (max / columns) + 1;
        let width = match slot_width.checked_mul(columns) {
            Some(w) => w,
            None => return Err(GlyphImageError::AtlasWidthTooLarge),
        };
        let height = match slot_height.checked_mul(rows) {
            Some(h) => h,
            None => return Err(GlyphImageError::AtlasHeightTooLarge),
        };
        let mut rgba = zeroed_rgba_buffer(width, height)?;
        proof {
            assert(slot_width * slot_height * 4 <= width * height * 4) by (nonlinear_arith)
                requires width == slot_width * columns, height == slot_height * rows, columns >= 1, rows >= 1;
        }
        let ghost zero = rgba@;
        proof {
            assert forall|y: int, b: int| 0 <= y < height && 0 <= b < width * 4 implies #[trigger] at(rgba@, width * 4, y, b)
                == atlas_byte(glyphs@.subrange(0, 0), slot_width, slot_height, columns, y, b) by {
                lemma_row_major_bound(y, b, height as int, width * 4);
                assert(width * height * 4 == height * (width * 4)) by (nonlinear_arith);
            }
        }
        let mut k: usize = 0;
        while k < glyphs.len()
            invariant
                0 <= k <= glyphs@.len(),
                slot_width > 0,
                slot_height > 0,
                columns > 0,
                width == slot_width * columns,
                height == slot_height * rows,
                rows == max_slot(glyphs@) / columns + 1,
                image_bytes(width as int, height as int) <= usize::MAX,
                image_bytes(slot_width as int, slot_height as int) <= usize::MAX,
                rgba@.len() == image_bytes(width as int, height as int),
                first_misfit(glyphs@.subrange(0, k as int), slot_width, slot_height) is None,
                forall|y: int, b: int|
                    0 <= y < height && 0 <= b < width * 4 ==> #[trigger] at(rgba@, width * 4, y, b) == atlas_byte(
                        glyphs@.subrange(0, k as int),
                        slot_width,
                        slot_height,
                        columns,
                        y,
                        b,
                    ),
            decreases glyphs@.len() - k,
        {
            let expected_len = rgba_byte_len(slot_width, slot_height)?;
            let glyph = &glyphs[k];
            proof {
                assert(glyphs@.subrange(0, k + 1).drop_last() =~= glyphs@.subrange(0, k as int));
            }
            if glyph.width != slot_width || glyph.height != slot_height || glyph.rgba.len() != expected_len {
                proof {
                    assert(first_misfit(glyphs@.subrange(0, k + 1), slot_width, slot_height) == Some(k as int));
                    lemma_prefix_misfit(glyphs@, slot_width, slot_height, k as int);
                }
                return Err(GlyphImageError::InvalidAtlasGlyphSize {
                    slot: glyph.entry.slot,
                    expected_len,
                    slot_width,
                    slot_height,
                });
            }
            proof {
                lemma_max_slot_bounds(glyphs@, k as int);
                assert((glyph.entry.slot / columns) * slot_height + slot_height <= height) by (nonlinear_arith)
                    requires glyph.entry.slot <= max_slot(glyphs@), rows == max_slot(glyphs@) / columns + 1,
                        height == slot_height * rows, columns > 0;
            }
            let ghost before = rgba@;
            copy_glyph_to_atlas_slot(&mut rgba, width, height, slot_width, slot_height, columns, glyph);
            proof {
                let s = glyphs@.subrange(0, k + 1);
                assert(s.last() == *glyph);
                assert forall|y: int, b: int| 0 <= y < height && 0 <= b < width * 4 implies #[trigger] at(rgba@, width * 4, y, b)
                    == atlas_byte(s, slot_width, slot_height, columns, y, b) by {
                    assert(at(before, width * 4, y, b) == atlas_byte(glyphs@.subrange(0, k as int), slot_width, slot_height, columns, y, b));
                }
            }
            k = k + 1;
        }
        proof {
            assert(glyphs@.subrange(0, glyphs@.len() as int) =~= glyphs@);
        }
        let occupied_slots = count_distinct_slots(glyphs);
        Ok(GlyphAtlasImage { width, height, rgba, occupied_slots })
    }
}

impl GlyphAtlasImage {
    /// Build a deterministic two-slot atlas image for GPU upload smoke tests:
    /// a red 2x2 slot followed by a green 2x2 slot on one atlas row.
    pub fn smoke_rgba8() -> (r: Result<Self, GlyphImageError>)
        ensures
            r matches Ok(image) && {
                &&& image.width == 4
                &&& image.height == 2
                &&& image.occupied_slots == 2
                &&& image.rgba@.len() == 32
                &&& forall|y: int, b: int|
                    0 <= y < 2 && 0 <= b < 16 ==> #[trigger] at(image.rgba@, 16, y, b) == (if b < 8 {
                        seq![255u8, 0u8, 0u8, 255u8][b % 4]
                    } else {
                        seq![0u8, 255u8, 0u8, 255u8][b % 4]
                    })
            },
    {
        let red = GlyphBitmap::try_solid_rgba8(GlyphEntry { slot: 0, generation: 0 }, 2, 2, [255, 0, 0, 255])?;
        let green = GlyphBitmap::try_solid_rgba8(GlyphEntry { slot: 1, generation: 0 }, 2, 2, [0, 255, 0, 255])?;
        let ghost red_glyph = red;
        let ghost green_glyph = green;
        let glyphs = [red, green];
        proof {
            let s = glyphs@;
            assert(s.len() == 2);
            assert(s[0] == red_glyph);
            assert(s[1] == green_glyph);
            reveal_with_fuel(max_slot, 3);
            reveal_with_fuel(first_misfit, 3);
            assert(s.drop_last() =~= seq![s[0]]);
            assert(seq![s[0]].drop_last() =~= Seq::<GlyphBitmap>::empty());
            assert(max_slot(s) == 1);
            assert(first_misfit(s, 2, 2) is None);
            reveal_with_fuel(slot_set, 3);
            let one = Set::<u32>::empty().insert(0u32);
            assert(slot_set(s) == one.insert(1u32));
            assert(one.len() == 1);
            assert(!one.contains(1u32));
            assert(slot_set(s).len() == 2);
        }
        let r = Self::pack_rgba8(2, 2, 2, &glyphs);
        proof {
            let s = glyphs@;
            let image = r->Ok_0;
            assert forall|y: int, b: int| 0 <= y < 2 && 0 <= b < 16 implies #[trigger] at(image.rgba@, 16, y, b) == (if b < 8 {
                seq![255u8, 0u8, 0u8, 255u8][b % 4]
            } else {
                seq![0u8, 255u8, 0u8, 255u8][b % 4]
            }) by {
                assert(at(image.rgba@, 16, y, b) == atlas_byte(s, 2, 2, 2, y, b));
                if b < 8 {
                    assert(atlas_byte(s, 2, 2, 2, y, b) == atlas_byte(s.drop_last(), 2, 2, 2, y, b));
                    assert(atlas_byte(s.drop_last(), 2, 2, 2, y, b) == s[0].rgba@[y * 8 + b]);
                    assert((y * 8 + b) % 4 == b % 4) by {
                        if y == 1 {
                            assert((8 + b) % 4 == b % 4);
                        }
                    }
                } else {
                    assert(atlas_byte(s, 2, 2, 2, y, b) == s[1].rgba@[y * 8 + (b - 8)]);
                    assert((y * 8 + (b - 8)) % 4 == b % 4) by {
                        if y == 1 {
                            assert((b) % 4 == b % 4);
                        }
                    }
                }
            }
        }
        r
    }
}

/// The first misfit of a sequence is the first misfit of any prefix that contains it.
pub proof fn lemma_prefix_misfit(glyphs: Seq<GlyphBitmap>, sw: u32, sh: u32, k: int)
    requires
        0 <= k < glyphs.len(),
        first_misfit(glyphs.subrange(0, k + 1), sw, sh) == Some(k),
    ensures
        first_misfit(glyphs, sw, sh) == Some(k),
    decreases glyphs.len(),
{
    if glyphs.len() > k + 1 {
        let shorter = glyphs.drop_last();
        assert(shorter.subrange(0, k + 1) =~= glyphs.subrange(0, k + 1));
        lemma_prefix_misfit(shorter, sw, sh, k);
    } else {
        assert(glyphs.subrange(0, k + 1) =~= glyphs);
    }
}

} // verus!
