//! Dense RGBA8 upload patterns and their checked layouts.

use vstd::prelude::*;

use crate::native_gpu::error::{is_smoke_error, smoke_error, GpuBootstrapError};
use crate::renderer::image::GlyphAtlasImage;
use crate::text::{append_decimal, append_str, decimal};

verus! {

/// Deterministic RGBA8 upload pattern.
#[derive(Debug, Clone, PartialEq, Eq)]
pub struct UploadPattern {
    /// Texture width in pixels.
    pub width: u32,
    /// Texture height in pixels.
    pub height: u32,
    /// Dense RGBA8 pixels in row-major order.
    pub rgba: Vec<u8>,
}

/// Checked dense RGBA8 upload layout.
#[derive(Debug, Clone, Copy, PartialEq, Eq, Structural)]
pub struct UploadPatternLayout {
    /// Dense bytes per row.
    pub row_bytes: u32,
    /// Expected total dense RGBA8 byte length.
    pub expected_len: usize,
}

/// Why a `width` x `height` RGBA8 pattern has no dense layout, if it has none.
pub open spec fn layout_error(width: u32, height: u32) -> Option<Seq<char>> {
    if width == 0 || height == 0 {
        Some("upload pattern dimensions must be non-zero"@)
    } else if width * 4 > u32::MAX {
        Some("upload pattern row byte size is too large"@)
    } else if width * 4 * height > usize::MAX {
        Some("upload pattern byte size is too large"@)
    } else {
        None
    }
}

/// The dense layout of a `width` x `height` RGBA8 pattern.
pub open spec fn dense_layout(width: u32, height: u32) -> UploadPatternLayout {
    UploadPatternLayout { row_bytes: (width * 4) as u32, expected_len: (width * 4 * height) as usize }
}

/// The outcome of validating the dimensions of a `width` x `height` RGBA8 pattern.
pub open spec fn layout_outcome(width: u32, height: u32, r: Result<UploadPatternLayout, GpuBootstrapError>) -> bool {
    match layout_error(width, height) {
        Some(m) => r matches Err(e) && is_smoke_error(e, m),
        None => r == Ok::<UploadPatternLayout, GpuBootstrapError>(dense_layout(width, height)),
    }
}

/// Message for a pattern named `label` holding `actual` bytes where `expected` were due.
pub open spec fn length_mismatch(label: Seq<char>, actual: nat, expected: nat) -> Seq<char> {
    label + " has "@ + decimal(actual) + " bytes, expected "@ + decimal(expected)
}

impl UploadPattern {
    /// Build a 2x2 RGBA checker pattern: red, green, blue and white pixels.
    pub fn checker_rgba8_2x2() -> (p: Self)
        ensures
            p.width == 2,
            p.height == 2,
            p.rgba@ == seq![255u8, 0, 0, 255, 0, 255, 0, 255, 0, 0, 255, 255, 255, 255, 255, 255],
    {
        Self { width: 2, height: 2, rgba: vec![255, 0, 0, 255, 0, 255, 0, 255, 0, 0, 255, 255, 255, 255, 255, 255] }
    }

    /// Build an upload pattern from a packed glyph atlas image.
    pub fn from_glyph_atlas_image(image: &GlyphAtlasImage) -> (p: Self)
        ensures
            p.width == image.width,
            p.height == image.height,
            p.rgba@ == image.rgba@,
    {
        let rgba = image.rgba.clone();
        proof {
            assert(rgba@ =~= image.rgba@);
        }
        Self { width: image.width, height: image.height, rgba }
    }

    /// Validate dimensions and return the dense RGBA8 upload layout.
    pub fn rgba8_layout(&self) -> (r: Result<UploadPatternLayout, GpuBootstrapError>)
        ensures
            layout_outcome(self.width, self.height, r),
    {
        if self.width == 0 || self.height == 0 {
            return Err(smoke_error("upload pattern dimensions must be non-zero"));
        }
        let row_bytes = match self.width.checked_mul(4) {
            Some(n) => n,
            None => return Err(smoke_error("upload pattern row byte size is too large")),
        };
        let expected_len = match (row_bytes as usize).checked_mul(self.height as usize) {
            Some(n) => n,
            None => return Err(smoke_error("upload pattern byte size is too large")),
        };
        Ok(UploadPatternLayout { row_bytes, expected_len })
    }
}

/// Validate a pattern about to be uploaded: its layout, and that it holds
/// exactly the dense bytes that layout calls for.
pub fn validate_pattern_bytes(pattern: &UploadPattern, label: &str) -> (r: Result<UploadPatternLayout, GpuBootstrapError>)
    ensures
        layout_error(pattern.width, pattern.height) is Some ==> layout_outcome(pattern.width, pattern.height, r),
        layout_error(pattern.width, pattern.height) is None && pattern.rgba@.len() == dense_layout(
            pattern.width,
            pattern.height,
        ).expected_len ==> layout_outcome(pattern.width, pattern.height, r),
        layout_error(pattern.width, pattern.height) is None && pattern.rgba@.len() != dense_layout(
            pattern.width,
            pattern.height,
        ).expected_len ==> (r matches Err(e) && is_smoke_error(
            e,
            length_mismatch(label@, pattern.rgba@.len(), dense_layout(pattern.width, pattern.height).expected_len as nat),
        )),
{
    let layout = match pattern.rgba8_layout() {
        Ok(layout) => layout,
        Err(e) => return Err(e),
    };
    if pattern.rgba.len() != layout.expected_len {
        let mut message = label.to_owned();
        append_str(&mut message, " has ");
        append_decimal(&mut message, pattern.rgba.len() as u64);
        append_str(&mut message, " bytes, expected ");
        append_decimal(&mut message, layout.expected_len as u64);
        return Err(GpuBootstrapError::SmokeReadback(message));
    }
    Ok(layout)
}

} // verus!
