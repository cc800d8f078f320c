//! Checked size and offset arithmetic for dense RGBA8 images.

use vstd::prelude::*;

use crate::renderer::image::GlyphImageError;

verus! {

/// Bytes in one dense RGBA8 row of `width` pixels.
pub open spec fn row_bytes(width: int) -> int {
    width * 4
}

/// Bytes in a dense RGBA8 image of `width` x `height` pixels.
pub open spec fn image_bytes(width: int, height: int) -> int {
    width * height * 4
}

/// Byte length of one dense RGBA8 row.
pub fn rgba_row_byte_len(width: u32) -> (r: Result<usize, GlyphImageError>)
    ensures
        r == (if row_bytes(width as int) <= usize::MAX {
            Ok::<usize, GlyphImageError>(row_bytes(width as int) as usize)
        } else {
            Err(GlyphImageError::RgbaRowDimensionsTooLarge)
        }),
{
    match (width as usize).checked_mul(4) {
        Some(len) => Ok(len),
        None => Err(GlyphImageError::RgbaRowDimensionsTooLarge),
    }
}

/// Number of pixels in a `width` x `height` image.
pub fn rgba_pixel_count(width: u32, height: u32) -> (r: Result<usize, GlyphImageError>)
    ensures
        r == (if width * height <= usize::MAX {
            Ok::<usize, GlyphImageError>((width * height) as usize)
        } else {
            Err(GlyphImageError::RgbaImageDimensionsTooLarge)
        }),
{
    match (width as usize).checked_mul(height as usize) {
        Some(count) => Ok(count),
        None => Err(GlyphImageError::RgbaImageDimensionsTooLarge),
    }
}

/// Byte length of a dense RGBA8 `width` x `height` image.
pub fn rgba_byte_len(width: u32, height: u32) -> (r: Result<usize, GlyphImageError>)
    ensures
        r == (if image_bytes(width as int, height as int) <= usize::MAX {
            Ok::<usize, GlyphImageError>(image_bytes(width as int, height as int) as usize)
        } else {
            Err(GlyphImageError::RgbaImageDimensionsTooLarge)
        }),
{
    let count = rgba_pixel_count(width, height)?;
    match count.checked_mul(4) {
        Some(len) => Ok(len),
        None => Err(GlyphImageError::RgbaImageDimensionsTooLarge),
    }
}

/// Byte offset of the start of row `row` in an image with `row_bytes` bytes per row.
pub fn checked_rgba_row_offset(row: usize, row_bytes: usize) -> (r: Result<usize, GlyphImageError>)
    ensures
        r == (if row * row_bytes <= usize::MAX {
            Ok::<usize, GlyphImageError>((row * row_bytes) as usize)
        } else {
            Err(GlyphImageError::RgbaRowOffsetTooLarge)
        }),
{
    match row.checked_mul(row_bytes) {
        Some(offset) => Ok(offset),
        None => Err(GlyphImageError::RgbaRowOffsetTooLarge),
    }
}

/// A fully transparent dense RGBA8 buffer for a `width` x `height` image.
pub fn zeroed_rgba_buffer(width: u32, height: u32) -> (r: Result<Vec<u8>, GlyphImageError>)
    ensures
        image_bytes(width as int, height as int) <= usize::MAX <==> r is Ok,
        r is Err ==> r == Err::<Vec<u8>, GlyphImageError>(
            GlyphImageError::RgbaImageDimensionsTooLarge,
        ),
        r matches Ok(v) ==> v@.len() == image_bytes(width as int, height as int) && forall|i: int|
            0 <= i < v@.len() ==> v@[i] == 0u8,
{
    let len = rgba_byte_len(width, height)?;
    Ok(vec![0u8; len])
}

/// Byte offset of pixel (`x`, `y`) in a dense RGBA8 image `width` pixels wide.
pub fn rgba_offset(width: u32, x: u32, y: u32) -> (r: Result<usize, GlyphImageError>)
    ensures
        r == (if (y * width + x) * 4 <= usize::MAX {
            Ok::<usize, GlyphImageError>(((y * width + x) * 4) as usize)
        } else {
            Err(GlyphImageError::RgbaImageOffsetTooLarge)
        }),
{
    let row_start = match (y as usize).checked_mul(width as usize) {
        Some(v) => v,
        None => {
            assert((y * width + x) * 4 > usize::MAX) by (nonlinear_arith)
                requires y * width > usize::MAX, x >= 0;
            return Err(GlyphImageError::RgbaImageOffsetTooLarge);
        },
    };
    let pixel = match row_start.checked_add(x as usize) {
        Some(v) => v,
        None => return Err(GlyphImageError::RgbaImageOffsetTooLarge),
    };
    match pixel.checked_mul(4) {
        Some(v) => Ok(v),
        None => Err(GlyphImageError::RgbaImageOffsetTooLarge),
    }
}

} // verus!
