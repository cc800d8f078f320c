//! Dense RGBA8 glyph bitmaps and packed glyph atlas images.

pub mod bitmap;
pub mod blit;
pub mod message;
pub mod packing;
pub mod placement;
pub mod rgba;

use vstd::prelude::*;

use crate::renderer::atlas::GlyphEntry;
use crate::renderer::image::blit::{at, blit_rows, lemma_row_major_bound};
use crate::renderer::image::rgba::image_bytes;

verus! {

/// Errors produced while building or packing dense RGBA8 glyph images.
#[derive(Debug, Clone, PartialEq, Eq)]
pub enum GlyphImageError {
    /// A solid glyph bitmap could not reserve its pixel buffer.
    SolidGlyphAllocationTooLarge,
    /// A requested RGBA row cannot be represented in memory.
    RgbaRowDimensionsTooLarge,
    /// A requested RGBA image cannot be represented in memory.
    RgbaImageDimensionsTooLarge,
    /// A requested RGBA row offset cannot be represented in memory.
    RgbaRowOffsetTooLarge,
    /// A requested RGBA image buffer could not be allocated.
    RgbaBufferAllocationTooLarge,
    /// A requested RGBA pixel offset cannot be represented in memory.
    RgbaImageOffsetTooLarge,
    /// The padding target is smaller than the source glyph bitmap.
    PaddingTargetTooSmall {
        /// Requested padded bitmap width.
        target_width: u32,
        /// Requested padded bitmap height.
        target_height: u32,
        /// Source glyph bitmap width.
        glyph_width: u32,
        /// Source glyph bitmap height.
        glyph_height: u32,
    },
    /// A source glyph bitmap does not contain the expected dense RGBA8 byte length.
    InvalidPaddingSourceLength {
        /// Atlas slot for the malformed glyph.
        slot: u32,
        /// Expected dense RGBA8 byte length.
        expected_len: usize,
    },
    /// Fixed-size atlas slot dimensions must be non-zero.
    InvalidAtlasSlotLayout,
    /// The packed atlas width cannot be represented.
    AtlasWidthTooLarge,
    /// The packed atlas height cannot be represented.
    AtlasHeightTooLarge,
    /// A glyph bitmap does not match the requested fixed atlas slot size.
    InvalidAtlasGlyphSize {
        /// Atlas slot for the malformed glyph.
        slot: u32,
        /// Expected dense RGBA8 byte length.
        expected_len: usize,
        /// Expected slot width.
        slot_width: u32,
        /// Expected slot height.
        slot_height: u32,
    },
    /// The packed atlas row offset cannot be represented.
    AtlasRowOffsetTooLarge,
    /// The packed atlas column offset cannot be represented.
    AtlasColumnOffsetTooLarge,
}

/// One rasterized glyph bitmap ready for atlas packing.
#[derive(Debug, Clone, PartialEq, Eq)]
pub struct GlyphBitmap {
    /// Atlas entry this bitmap belongs to.
    pub entry: GlyphEntry,
    /// Left edge of the glyph bitmap relative to the shaped cell origin.
    pub origin_x: i32,
    /// Top edge of the glyph bitmap relative to the shaped baseline.
    pub origin_y: i32,
    /// Bitmap width in pixels.
    pub width: u32,
    /// Bitmap height in pixels.
    pub height: u32,
    /// Dense RGBA8 pixels in row-major order.
    pub rgba: Vec<u8>,
}

/// Packed RGBA8 glyph atlas image.
#[derive(Debug, Clone, PartialEq, Eq)]
pub struct GlyphAtlasImage {
    /// Atlas image width in pixels.
    pub width: u32,
    /// Atlas image height in pixels.
    pub height: u32,
    /// Dense RGBA8 pixels in row-major order.
    pub rgba: Vec<u8>,
    /// Number of populated atlas slots.
    pub occupied_slots: usize,
}

} // verus!

verus! {

/// The byte at row `y`, byte `b` of a transparent image after the `w` x `h`
/// RGBA8 image `src` was placed with its top-left pixel at (`tx`, `ty`).
pub open spec fn placed_byte(src: Seq<u8>, w: int, h: int, tx: int, ty: int, y: int, b: int) -> u8 {
    if ty <= y < ty + h && tx * 4 <= b < tx * 4 + w * 4 {
        at(src, w * 4, y - ty, b - tx * 4)
    } else {
        0
    }
}

/// `out` is the dense `tw` x `th` RGBA8 image that is transparent except for
/// the `w` x `h` image `src` placed with its top-left pixel at (`tx`, `ty`).
pub open spec fn is_placed_image(
    out: Seq<u8>,
    src: Seq<u8>,
    w: int,
    h: int,
    tw: int,
    th: int,
    tx: int,
    ty: int,
) -> bool {
    &&& out.len() == image_bytes(tw, th)
    &&& forall|y: int, b: int|
        0 <= y < th && 0 <= b < tw * 4 ==> #[trigger] at(out, tw * 4, y, b) == placed_byte(
            src,
            w,
            h,
            tx,
            ty,
            y,
            b,
        )
}

/// The transparent `tw` x `th` image holding `src` (`w` x `h`) at (`tx`, `ty`).
pub fn placed_rgba(src: &Vec<u8>, w: u32, h: u32, tw: u32, th: u32, tx: u32, ty: u32) -> (out: Vec<u8>)
    requires
        src@.len() == image_bytes(w as int, h as int),
        tx + w <= tw,
        ty + h <= th,
        image_bytes(tw as int, th as int) <= usize::MAX,
    ensures
        is_placed_image(out@, src@, w as int, h as int, tw as int, th as int, tx as int, ty as int),
{
    proof {
        assert(tw * 4 <= image_bytes(tw as int, th as int) || th == 0) by (nonlinear_arith)
            requires th >= 0, tw >= 0;
        assert(tw * th * 4 == th * (tw * 4)) by (nonlinear_arith);
        assert((ty + h) * (tw * 4) <= th * (tw * 4)) by (nonlinear_arith)
            requires ty + h <= th, tw >= 0;
        assert(w * h * 4 == h * (w * 4)) by (nonlinear_arith);
    }
    if th == 0 {
        let out: Vec<u8> = Vec::new();
        proof {
            assert(tw * th * 4 == 0) by (nonlinear_arith)
                requires th == 0;
        }
        return out;
    }
    let n: usize = (tw as usize) * 4;
    let len: usize = (th as usize) * n;
    let mut out = vec![0u8; len];
    let ghost zero = out@;
    blit_rows(&mut out, n, src, (w as usize) * 4, h as usize, ty as usize, (tx as usize) * 4);
    proof {
        assert forall|y: int, b: int| 0 <= y < th && 0 <= b < tw * 4 implies #[trigger] at(
            out@,
            tw * 4,
            y,
            b,
        ) == placed_byte(src@, w as int, h as int, tx as int, ty as int, y, b) by {
            lemma_row_major_bound(y, b, th as int, tw * 4);
            assert(at(zero, n as int, y, b) == 0);
        }
    }
    out
}

} // verus!
