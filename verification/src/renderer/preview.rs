//! Integer parts of the CPU preview of a prepared surface glyph frame: buffer
//! sizing, pixel offsets, atlas validation and glyph tinting.

use vstd::prelude::*;

use crate::renderer::image::GlyphAtlasImage;
use crate::renderer::surface_frame::{invalid_frame, is_invalid_frame, SurfaceFrameError};
use crate::text::{append_decimal, append_str, decimal};

verus! {

/// Deterministic CPU preview of a prepared surface glyph frame.
#[derive(Debug, Clone, PartialEq, Eq)]
pub struct PreparedFramePreview {
    /// Preview width in pixels.
    pub width: u32,
    /// Preview height in pixels.
    pub height: u32,
    /// RGBA8 pixels in row-major order.
    pub rgba: Vec<u8>,
}

/// Pixels of a `width` x `height` preview, if a `usize` holds the count.
pub fn checked_pixel_count(width: u32, height: u32) -> (r: Result<usize, SurfaceFrameError>)
    ensures
        width * height <= usize::MAX ==> r == Ok::<usize, SurfaceFrameError>((width * height) as usize),
        width * height > usize::MAX ==> (r matches Err(e) && is_invalid_frame(e, "prepared frame preview is too large"@)),
{
    assert(width as int * height as int <= u32::MAX as int * u32::MAX as int) by (nonlinear_arith)
        requires width <= u32::MAX, height <= u32::MAX;
    let count: u64 = width as u64 * height as u64;
    if count > usize::MAX as u64 {
        return Err(invalid_frame("prepared frame preview is too large"));
    }
    Ok(count as usize)
}

/// RGBA8 bytes of a `width` x `height` preview, if a `usize` holds them.
pub fn checked_rgba_len(width: u32, height: u32) -> (r: Result<usize, SurfaceFrameError>)
    requires
        width * height * 4 <= u64::MAX,
    ensures
        width * height * 4 <= usize::MAX ==> r == Ok::<usize, SurfaceFrameError>((width * height * 4) as usize),
        width * height * 4 > usize::MAX ==> (r matches Err(e) && is_invalid_frame(
            e,
            "prepared frame preview RGBA buffer is too large"@,
        )),
{
    assert(width as int * height as int <= u32::MAX as int * u32::MAX as int) by (nonlinear_arith)
        requires width <= u32::MAX, height <= u32::MAX;
    let len: u64 = width as u64 * height as u64 * 4;
    if len > usize::MAX as u64 {
        return Err(invalid_frame("prepared frame preview RGBA buffer is too large"));
    }
    Ok(len as usize)
}

/// Byte offset of pixel (`x`, `y`) in a `width`-pixel-wide preview, if a `usize` holds it.
pub fn rgba_offset(width: u32, x: u32, y: u32) -> (r: Result<usize, SurfaceFrameError>)
    requires
        (y * width + x) * 4 <= u64::MAX,
    ensures
        (y * width + x) * 4 <= usize::MAX ==> r == Ok::<usize, SurfaceFrameError>(((y * width + x) * 4) as usize),
        (y * width + x) * 4 > usize::MAX ==> (r matches Err(e) && is_invalid_frame(
            e,
            "prepared frame preview pixel offset is too large"@,
        )),
{
    assert(y as int * width as int <= u32::MAX as int * u32::MAX as int) by (nonlinear_arith)
        requires width <= u32::MAX, y <= u32::MAX;
    let offset: u64 = (y as u64 * width as u64 + x as u64) * 4;
    if offset > usize::MAX as u64 {
        return Err(invalid_frame("prepared frame preview pixel offset is too large"));
    }
    Ok(offset as usize)
}

/// Message for an atlas of `actual` bytes where `expected` were due.
pub open spec fn preview_atlas_mismatch(expected: nat, actual: nat) -> Seq<char> {
    "prepared frame preview expected "@ + decimal(expected) + " atlas RGBA bytes, got "@ + decimal(actual)
}

/// Check that `atlas` holds exactly its dense RGBA8 bytes.
pub fn validate_atlas_rgba(atlas: &GlyphAtlasImage) -> (r: Result<(), SurfaceFrameError>)
    requires
        atlas.width * atlas.height * 4 <= u64::MAX,
    ensures
        atlas.width * atlas.height * 4 > usize::MAX ==> (r matches Err(e) && is_invalid_frame(
            e,
            "prepared frame preview RGBA buffer is too large"@,
        )),
        atlas.width * atlas.height * 4 <= usize::MAX && atlas.rgba@.len() != atlas.width * atlas.height * 4 ==> (r matches Err(e)
            && is_invalid_frame(e, preview_atlas_mismatch((atlas.width * atlas.height * 4) as nat, atlas.rgba@.len()))),
        atlas.rgba@.len() == atlas.width * atlas.height * 4 ==> r is Ok,
{
    let _len = atlas.rgba.len();
    let expected = checked_rgba_len(atlas.width, atlas.height)?;
    if atlas.rgba.len() != expected {
        let mut message = "prepared frame preview expected ".to_owned();
        append_decimal(&mut message, expected as u64);
        append_str(&mut message, " atlas RGBA bytes, got ");
        append_decimal(&mut message, atlas.rgba.len() as u64);
        return Err(SurfaceFrameError::InvalidFrame(message));
    }
    Ok(())
}

/// Byte offset of atlas pixel (`x`, `y`).
pub open spec fn atlas_offset(atlas: GlyphAtlasImage, x: u32, y: u32) -> int {
    (y * atlas.width + x) * 4
}

/// The RGBA8 value of atlas pixel (`x`, `y`), whose four bytes lie inside the atlas.
pub fn atlas_pixel(atlas: &GlyphAtlasImage, x: u32, y: u32) -> (r: Result<[u8; 4], SurfaceFrameError>)
    requires
        atlas_offset(*atlas, x, y) + 4 <= atlas.rgba@.len(),
    ensures
        r == Ok::<[u8; 4], SurfaceFrameError>([
            atlas.rgba@[atlas_offset(*atlas, x, y)],
            atlas.rgba@[atlas_offset(*atlas, x, y) + 1],
            atlas.rgba@[atlas_offset(*atlas, x, y) + 2],
            atlas.rgba@[atlas_offset(*atlas, x, y) + 3],
        ]),
{
    let _len = atlas.rgba.len();
    let offset = rgba_offset(atlas.width, x, y)?;
    Ok([atlas.rgba[offset], atlas.rgba[offset + 1], atlas.rgba[offset + 2], atlas.rgba[offset + 3]])
}

/// Absolute difference of two bytes.
pub open spec fn byte_distance(a: u8, b: u8) -> int {
    if a >= b { a - b } else { b - a }
}

/// An atlas pixel is treated as grayscale coverage, to be tinted with the
/// glyph color, when its red, green and blue channels differ by at most 8 in all.
pub fn is_grayscale(pixel: [u8; 4]) -> (r: bool)
    ensures
        r <==> byte_distance(pixel[0], pixel[1]) + byte_distance(pixel[1], pixel[2]) <= 8,
{
    let red_green: u8 = if pixel[0] >= pixel[1] { pixel[0] - pixel[1] } else { pixel[1] - pixel[0] };
    let green_blue: u8 = if pixel[1] >= pixel[2] { pixel[1] - pixel[2] } else { pixel[2] - pixel[1] };
    red_green.saturating_add(green_blue) <= 8
}

/// Product of two normalized channel values, rounded to nearest: `lhs * rhs / 255`.
pub fn multiply_u8(lhs: u8, rhs: u8) -> (r: u8)
    ensures
        r == (lhs * rhs + 127) / 255,
{
    assert(lhs as int * rhs as int <= 255 * 255) by (nonlinear_arith)
        requires lhs <= 255, rhs <= 255;
    let product: u16 = lhs as u16 * rhs as u16;
    ((product + 127) / 255) as u8
}

} // verus!
