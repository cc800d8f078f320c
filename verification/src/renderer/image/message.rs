//! Human-readable text of glyph image errors.

use vstd::prelude::*;

use crate::renderer::image::GlyphImageError;
use crate::text::{append_decimal, append_str, decimal};

verus! {

/// The text describing `e`.
pub open spec fn image_error_text(e: GlyphImageError) -> Seq<char> {
    match e {
        GlyphImageError::SolidGlyphAllocationTooLarge => "solid glyph bitmap is too large to allocate"@,
        GlyphImageError::RgbaRowDimensionsTooLarge => "rgba row dimensions are too large"@,
        GlyphImageError::RgbaImageDimensionsTooLarge => "rgba image dimensions are too large"@,
        GlyphImageError::RgbaRowOffsetTooLarge => "rgba row offset is too large"@,
        GlyphImageError::RgbaBufferAllocationTooLarge => "rgba image buffer is too large to allocate"@,
        GlyphImageError::RgbaImageOffsetTooLarge => "rgba image offset is too large"@,
        GlyphImageError::PaddingTargetTooSmall { target_width, target_height, glyph_width, glyph_height } => "target "@
            + decimal(target_width as nat) + "x"@ + decimal(target_height as nat) + " is smaller than glyph "@ + decimal(
            glyph_width as nat,
        ) + "x"@ + decimal(glyph_height as nat),
        GlyphImageError::InvalidPaddingSourceLength { slot, expected_len } => "glyph slot "@ + decimal(slot as nat)
            + " expected "@ + decimal(expected_len as nat) + " rgba bytes before padding"@,
        GlyphImageError::InvalidAtlasSlotLayout => "slot dimensions and columns must be non-zero"@,
        GlyphImageError::AtlasWidthTooLarge => "glyph atlas width is too large"@,
        GlyphImageError::AtlasHeightTooLarge => "glyph atlas height is too large"@,
        GlyphImageError::InvalidAtlasGlyphSize { slot, expected_len, slot_width, slot_height } => "glyph slot "@ + decimal(
            slot as nat,
        ) + " expected "@ + decimal(expected_len as nat) + " rgba bytes for "@ + decimal(slot_width as nat) + "x"@
            + decimal(slot_height as nat),
        GlyphImageError::AtlasRowOffsetTooLarge => "glyph atlas row offset is too large"@,
        GlyphImageError::AtlasColumnOffsetTooLarge => "glyph atlas column offset is too large"@,
    }
}

impl GlyphImageError {
    /// The text describing this error.
    pub fn message(&self) -> (s: String)
        ensures
            s@ == image_error_text(*self),
    {
        match self {
            GlyphImageError::SolidGlyphAllocationTooLarge => "solid glyph bitmap is too large to allocate".to_owned(),
            GlyphImageError::RgbaRowDimensionsTooLarge => "rgba row dimensions are too large".to_owned(),
            GlyphImageError::RgbaImageDimensionsTooLarge => "rgba image dimensions are too large".to_owned(),
            GlyphImageError::RgbaRowOffsetTooLarge => "rgba row offset is too large".to_owned(),
            GlyphImageError::RgbaBufferAllocationTooLarge => "rgba image buffer is too large to allocate".to_owned(),
            GlyphImageError::RgbaImageOffsetTooLarge => "rgba image offset is too large".to_owned(),
            GlyphImageError::PaddingTargetTooSmall { target_width, target_height, glyph_width, glyph_height } => {
                let mut s = "target ".to_owned();
                append_decimal(&mut s, *target_width as u64);
                append_str(&mut s, "x");
                append_decimal(&mut s, *target_height as u64);
                append_str(&mut s, " is smaller than glyph ");
                append_decimal(&mut s, *glyph_width as u64);
                append_str(&mut s, "x");
                append_decimal(&mut s, *glyph_height as u64);
                s
            },
            GlyphImageError::InvalidPaddingSourceLength { slot, expected_len } => {
                let mut s = "glyph slot ".to_owned();
                append_decimal(&mut s, *slot as u64);
                append_str(&mut s, " expected ");
                append_decimal(&mut s, *expected_len as u64);
                append_str(&mut s, " rgba bytes before padding");
                s
            },
            GlyphImageError::InvalidAtlasSlotLayout => "slot dimensions and columns must be non-zero".to_owned(),
            GlyphImageError::AtlasWidthTooLarge => "glyph atlas width is too large".to_owned(),
            GlyphImageError::AtlasHeightTooLarge => "glyph atlas height is too large".to_owned(),
            GlyphImageError::InvalidAtlasGlyphSize { slot, expected_len, slot_width, slot_height } => {
                let mut s = "glyph slot ".to_owned();
                append_decimal(&mut s, *slot as u64);
                append_str(&mut s, " expected ");
                append_decimal(&mut s, *expected_len as u64);
                append_str(&mut s, " rgba bytes for ");
                append_decimal(&mut s, *slot_width as u64);
                append_str(&mut s, "x");
                append_decimal(&mut s, *slot_height as u64);
                s
            },
            GlyphImageError::AtlasRowOffsetTooLarge => "glyph atlas row offset is too large".to_owned(),
            GlyphImageError::AtlasColumnOffsetTooLarge => "glyph atlas column offset is too large".to_owned(),
        }
    }
}

} // verus!
