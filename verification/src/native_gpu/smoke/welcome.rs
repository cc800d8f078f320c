//! Checks on the offscreen welcome-image readback.

use vstd::prelude::*;

use crate::native_gpu::error::{is_smoke_error, smoke_error, GpuBootstrapError};
use crate::native_gpu::smoke::pixels::{count_pixels_unlike, differing_count, pixel, whole_pixels};
use crate::text::{append_rgba, append_str, rgba_text};

verus! {

/// Samples taken from a welcome-image readback.
#[derive(Debug, Clone, Copy, PartialEq, Eq)]
pub struct WelcomeImagePixels {
    /// Top-left pixel, which must show the background.
    pub background_pixel: [u8; 4],
    /// Center pixel, which must show the image.
    pub image_pixel: [u8; 4],
    /// Number of pixels that differ from the background.
    pub drawn_pixels: usize,
}

/// Index of the first byte of pixel (`x`, `y`) in a `width`-pixel-wide RGBA8 image.
pub open spec fn pixel_start(width: u32, x: u32, y: u32) -> int {
    (y * width + x) * 4
}

/// Pixel (`x`, `y`) lies inside the readback `s` of a `width`-pixel-wide image,
/// with all offsets representable.
pub open spec fn pixel_in_range(s: Seq<u8>, width: u32, x: u32, y: u32) -> bool {
    &&& y * width <= usize::MAX
    &&& y * width + x <= usize::MAX
    &&& pixel_start(width, x, y) + 4 <= s.len()
}

/// Message for a background pixel `found` where `expected` was due.
pub open spec fn background_mismatch(found: [u8; 4], expected: [u8; 4]) -> Seq<char> {
    "welcome image background pixel "@ + rgba_text(found) + " did not match "@ + rgba_text(expected)
}

/// Pixel (`x`, `y`) of a `width`-pixel-wide RGBA8 readback.
pub fn pixel_at(pixels: &[u8], width: u32, x: u32, y: u32) -> (r: Result<[u8; 4], GpuBootstrapError>)
    requires
        !(pixel_start(width, x, y) <= usize::MAX < pixel_start(width, x, y) + 4),
    ensures
        pixel_in_range(pixels@, width, x, y) ==> (r matches Ok(p) && p@ == pixels@.subrange(
            pixel_start(width, x, y),
            pixel_start(width, x, y) + 4,
        )),
        !pixel_in_range(pixels@, width, x, y) ==> (r matches Err(e) && is_smoke_error(e, "welcome image pixel out of range"@)),
{
    let len = pixels.len();
    let row = match (y as usize).checked_mul(width as usize) {
        Some(v) => v,
        None => return Err(smoke_error("welcome image pixel out of range")),
    };
    let index = match row.checked_add(x as usize) {
        Some(v) => v,
        None => return Err(smoke_error("welcome image pixel out of range")),
    };
    let start = match index.checked_mul(4) {
        Some(v) => v,
        None => return Err(smoke_error("welcome image pixel out of range")),
    };
    if start + 4 > len {
        return Err(smoke_error("welcome image pixel out of range"));
    }
    let p = [pixels[start], pixels[start + 1], pixels[start + 2], pixels[start + 3]];
    proof {
        assert(p@ =~= pixels@.subrange(start as int, start + 4));
    }
    Ok(p)
}

/// Check a welcome-image readback: the top-left pixel shows `background`, the
/// center pixel does not, and count the pixels that differ from `background`.
pub fn welcome_image_report(pixels: &[u8], width: u32, height: u32, background: [u8; 4]) -> (r: Result<WelcomeImagePixels, GpuBootstrapError>)
    requires
        !(pixel_start(width, width / 2, height / 2) <= usize::MAX < pixel_start(width, width / 2, height / 2) + 4),
    ensures
        !pixel_in_range(pixels@, width, 0, 0) ==> (r matches Err(e) && is_smoke_error(e, "welcome image pixel out of range"@)),
        pixel_in_range(pixels@, width, 0, 0) && pixel(pixels@, 0) != background@ ==> (r matches Err(e) && exists|found: [u8; 4]|
            found@ == pixel(pixels@, 0) && #[trigger] is_smoke_error(e, background_mismatch(found, background))),
        pixel_in_range(pixels@, width, 0, 0) && pixel(pixels@, 0) == background@ && !pixel_in_range(
            pixels@,
            width,
            width / 2,
            height / 2,
        ) ==> (r matches Err(e) && is_smoke_error(e, "welcome image pixel out of range"@)),
        pixel_in_range(pixels@, width, 0, 0) && pixel(pixels@, 0) == background@ && pixel_in_range(
            pixels@,
            width,
            width / 2,
            height / 2,
        ) ==> {
            let center = pixels@.subrange(pixel_start(width, width / 2, height / 2), pixel_start(width, width / 2, height / 2) + 4);
            &&& center == background@ ==> (r matches Err(e) && is_smoke_error(
                e,
                "welcome image center pixel matched the background; avatar did not render"@,
            ))
            &&& center != background@ ==> (r matches Ok(report) && report.background_pixel == background
                && report.image_pixel@ == center && report.drawn_pixels == differing_count(
                pixels@,
                whole_pixels(pixels@.len()),
                background@,
            ))
        },
{
    let background_pixel = pixel_at(pixels, width, 0, 0)?;
    proof {
        assert(pixels@.subrange(0, 4) =~= pixel(pixels@, 0));
    }
    if !same_pixel(background_pixel, background) {
        let mut message = "welcome image background pixel ".to_owned();
        append_rgba(&mut message, background_pixel);
        append_str(&mut message, " did not match ");
        append_rgba(&mut message, background);
        proof {
            assert(is_smoke_error(GpuBootstrapError::SmokeReadback(message), background_mismatch(background_pixel, background)));
        }
        return Err(GpuBootstrapError::SmokeReadback(message));
    }
    let image_pixel = pixel_at(pixels, width, width / 2, height / 2)?;
    if same_pixel(image_pixel, background) {
        return Err(smoke_error("welcome image center pixel matched the background; avatar did not render"));
    }
    let drawn_pixels = count_pixels_unlike(pixels, background);
    Ok(WelcomeImagePixels { background_pixel, image_pixel, drawn_pixels })
}

/// Whether two pixels hold the same four bytes.
fn same_pixel(a: [u8; 4], b: [u8; 4]) -> (r: bool)
    ensures
        r <==> a@ == b@,
{
    let r = a[0] == b[0] && a[1] == b[1] && a[2] == b[2] && a[3] == b[3];
    proof {
        if r {
            assert(a@ =~= b@);
        } else {
            if a@ == b@ {
                assert(a@[0] == b@[0] && a@[1] == b@[1] && a@[2] == b@[2] && a@[3] == b@[3]);
            }
        }
    }
    r
}

} // verus!
