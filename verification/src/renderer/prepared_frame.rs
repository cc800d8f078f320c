//! Sizing and atlas helpers for preparing an owned surface glyph frame.

use vstd::prelude::*;

use crate::renderer::image::packing::{lemma_max_slot_bounds, max_slot};
use crate::renderer::image::{GlyphAtlasImage, GlyphBitmap};
use crate::renderer::surface_frame::{invalid_frame, is_invalid_frame, SurfaceFrameError};
use crate::text::concat;

verus! {

/// `c` is the smallest positive number of columns whose square grid holds `n` slots.
pub open spec fn is_square_columns(c: int, n: int) -> bool {
    &&& c >= 1
    &&& c * c >= n
    &&& (c == 1 || (c - 1) * (c - 1) < n)
}

/// Columns of a square atlas grid large enough for the highest slot among
/// `glyphs` (slot 0 when there are none).
pub fn atlas_columns_for_glyphs(glyphs: &[GlyphBitmap]) -> (r: u32)
    ensures
        is_square_columns(r as int, max_slot(glyphs@) + 1),
{
    let mut top: u32 = 0;
    let mut i: usize = 0;
    while i < glyphs.len()
        invariant
            i <= glyphs@.len(),
            top == max_slot(glyphs@.subrange(0, i as int)),
        decreases glyphs@.len() - i,
    {
        proof {
            assert(glyphs@.subrange(0, i + 1).drop_last() =~= glyphs@.subrange(0, i as int));
        }
        if glyphs[i].entry.slot > top {
            top = glyphs[i].entry.slot;
        }
        i = i + 1;
    }
    proof {
        assert(glyphs@.subrange(0, glyphs@.len() as int) =~= glyphs@);
    }
    let slots: u64 = top as u64 + 1;
    let mut columns: u32 = 1;
    while (columns as u64) * (columns as u64) < slots
        invariant
            1 <= columns <= 65536,
            columns * columns <= 0x1_0000_0000,
            slots == max_slot(glyphs@) + 1,
            slots <= 0x1_0000_0000,
            columns == 1 || (columns - 1) * (columns - 1) < slots,
        decreases 65536 - columns,
    {
        assert(columns < 65536) by (nonlinear_arith)
            requires
                columns * columns < slots,
                slots <= 0x1_0000_0000,
                columns >= 1;
        assert((columns + 1) * (columns + 1) <= 0x1_0000_0000) by (nonlinear_arith)
            requires columns < 65536;
        columns = columns + 1;
    }
    columns
}

/// A fully transparent `width` x `height` RGBA8 atlas with no occupied slots.
pub fn transparent_glyph_atlas(width: u32, height: u32) -> (r: Result<GlyphAtlasImage, SurfaceFrameError>)
    ensures
        width * height * 4 > u32::MAX ==> (r matches Err(e) && is_invalid_frame(e, "transparent glyph atlas is too large"@)),
        width * height * 4 <= u32::MAX ==> (r matches Ok(image) && {
            &&& image.width == width
            &&& image.height == height
            &&& image.occupied_slots == 0
            &&& image.rgba@ == Seq::new((width * height * 4) as nat, |i: int| 0u8)
        }),
{
    let pixels = match width.checked_mul(height) {
        Some(n) => n,
        None => {
            assert(width * height * 4 > u32::MAX) by (nonlinear_arith)
                requires width * height > u32::MAX;
            return Err(invalid_frame("transparent glyph atlas is too large"));
        },
    };
    let len = match pixels.checked_mul(4) {
        Some(n) => n,
        None => return Err(invalid_frame("transparent glyph atlas is too large")),
    };
    let mut rgba: Vec<u8> = Vec::new();
    let mut i: u32 = 0;
    while i < len
        invariant
            i <= len,
            rgba@ == Seq::new(i as nat, |k: int| 0u8),
        decreases len - i,
    {
        rgba.push(0);
        proof {
            assert(rgba@ =~= Seq::new((i + 1) as nat, |k: int| 0u8));
        }
        i = i + 1;
    }
    Ok(GlyphAtlasImage { width, height, rgba, occupied_slots: 0 })
}

/// Pixels spanned by `cells` cells of `cell_size_px`, with `cell_spacing_px`
/// between neighbouring cells and `surface_padding_px` on both sides.
pub open spec fn frame_pixels(cells: u16, cell_size_px: u32, surface_padding_px: u16, cell_spacing_px: u16) -> int {
    let gaps: int = if cells >= 1 { cells - 1 } else { 0 };
    cells * cell_size_px + gaps * cell_spacing_px + 2 * surface_padding_px
}

/// Pixel size of a frame along one axis, if a `u32` holds it.
pub fn checked_surface_frame_pixel_dimension(
    label: &str,
    cells: u16,
    cell_size_px: u32,
    surface_padding_px: u16,
    cell_spacing_px: u16,
) -> (r: Result<u32, SurfaceFrameError>)
    ensures
        frame_pixels(cells, cell_size_px, surface_padding_px, cell_spacing_px) <= u32::MAX ==> r == Ok::<u32, SurfaceFrameError>(
            frame_pixels(cells, cell_size_px, surface_padding_px, cell_spacing_px) as u32,
        ),
        frame_pixels(cells, cell_size_px, surface_padding_px, cell_spacing_px) > u32::MAX ==> (r matches Err(e)
            && is_invalid_frame(e, label@ + " is too large to represent"@)),
{
    let gaps: u32 = if cells >= 1 { (cells - 1) as u32 } else { 0 };
    assert(gaps as int * cell_spacing_px as int <= 0xffff * 0xffff) by (nonlinear_arith)
        requires gaps <= 0xffff, cell_spacing_px <= 0xffff;
    assert(0 <= cells as int * cell_size_px as int) by (nonlinear_arith);
    let cell_pixels = match (cells as u32).checked_mul(cell_size_px) {
        Some(n) => n,
        None => return Err(SurfaceFrameError::InvalidFrame(concat(label, " is too large to represent"))),
    };
    let spacing_pixels: u32 = gaps * (cell_spacing_px as u32);
    let spaced = match cell_pixels.checked_add(spacing_pixels) {
        Some(n) => n,
        None => return Err(SurfaceFrameError::InvalidFrame(concat(label, " is too large to represent"))),
    };
    let padding_pixels: u32 = (surface_padding_px as u32) * 2;
    match spaced.checked_add(padding_pixels) {
        Some(n) => Ok(n),
        None => Err(SurfaceFrameError::InvalidFrame(concat(label, " is too large to represent"))),
    }
}

} // verus!
