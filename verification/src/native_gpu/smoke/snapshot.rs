//! Binary PPM snapshots of dense RGBA8 readbacks.

use vstd::prelude::*;

use crate::native_gpu::error::{is_smoke_error, smoke_error, GpuBootstrapError};
use crate::native_gpu::smoke::pixels::pixel;
use crate::text::{append_decimal, append_decimal_bytes, append_str, decimal, decimal_bytes};

verus! {

/// Header of a binary PPM image of `width` x `height` pixels with 8-bit channels:
/// `P6\n<width> <height>\n255\n`.
pub open spec fn ppm_header(width: u32, height: u32) -> Seq<u8> {
    seq![80u8, 54, 10] + decimal_bytes(width as nat) + seq![32u8] + decimal_bytes(height as nat) + seq![10u8, 50, 53, 53, 10]
}

/// The red, green and blue bytes of the first `n` pixels of `s`, alpha dropped.
pub open spec fn rgb_bytes(s: Seq<u8>, n: int) -> Seq<u8>
    decreases n,
{
    if n <= 0 {
        Seq::empty()
    } else {
        rgb_bytes(s, n - 1) + pixel(s, n - 1).subrange(0, 3)
    }
}

/// Message for a readback of `actual` bytes where `expected` were due, for the
/// snapshot named `name`.
pub open spec fn snapshot_len_mismatch(name: Seq<char>, expected: nat, actual: nat) -> Seq<char> {
    name + " expected "@ + decimal(expected) + " RGBA bytes, got "@ + decimal(actual)
}

/// Binary PPM bytes of a `width` x `height` dense RGBA8 image.
fn ppm_encode(width: u32, height: u32, pixels: &[u8]) -> (out: Vec<u8>)
    requires
        pixels@.len() == width * height * 4,
    ensures
        out@ == ppm_header(width, height) + rgb_bytes(pixels@, width * height),
{
    let mut out: Vec<u8> = Vec::new();
    out.push(80);
    out.push(54);
    out.push(10);
    append_decimal_bytes(&mut out, width as u64);
    out.push(32);
    append_decimal_bytes(&mut out, height as u64);
    out.push(10);
    out.push(50);
    out.push(53);
    out.push(53);
    out.push(10);
    let ghost header = out@;
    proof {
        assert(header =~= ppm_header(width, height));
    }
    let n = pixels.len() / 4;
    let mut i: usize = 0;
    while i < n
        invariant
            n == width * height,
            pixels@.len() == width * height * 4,
            i <= n,
            out@ == header + rgb_bytes(pixels@, i as int),
        decreases n - i,
    {
        out.push(pixels[4 * i]);
        out.push(pixels[4 * i + 1]);
        out.push(pixels[4 * i + 2]);
        proof {
            assert(pixel(pixels@, i as int).subrange(0, 3) =~= seq![pixels@[4 * i], pixels@[4 * i + 1], pixels@[4 * i + 2]]);
            assert(out@ =~= header + rgb_bytes(pixels@, i + 1));
        }
        i = i + 1;
    }
    out
}

/// A mismatch message naming `name`, `expected` and `actual`.
fn len_mismatch_message(name: &str, expected: usize, actual: usize) -> (s: String)
    ensures
        s@ == snapshot_len_mismatch(name@, expected as nat, actual as nat),
{
    let mut s = name.to_owned();
    append_str(&mut s, " expected ");
    append_decimal(&mut s, expected as u64);
    append_str(&mut s, " RGBA bytes, got ");
    append_decimal(&mut s, actual as u64);
    s
}

/// Binary PPM snapshot of the terminal-text readback of a `width` x `height` target.
pub fn terminal_text_ppm_bytes(width: u32, height: u32, pixels: &[u8]) -> (r: Result<Vec<u8>, GpuBootstrapError>)
    requires
        width * height * 4 <= u64::MAX,
    ensures
        width * height * 4 > usize::MAX ==> (r matches Err(e) && is_smoke_error(e, "terminal text snapshot is too large"@)),
        width * height * 4 <= usize::MAX && pixels@.len() != width * height * 4 ==> (r matches Err(e) && is_smoke_error(
            e,
            snapshot_len_mismatch("terminal text snapshot"@, (width * height * 4) as nat, pixels@.len()),
        )),
        pixels@.len() == width * height * 4 ==> (r matches Ok(out) && out@ == ppm_header(width, height) + rgb_bytes(
            pixels@,
            width * height,
        )),
{
    let _len = pixels.len();
    assert(width as int * height as int <= u32::MAX as int * u32::MAX as int) by (nonlinear_arith)
        requires width <= u32::MAX, height <= u32::MAX;
    let expected64: u64 = width as u64 * height as u64 * 4;
    if expected64 > usize::MAX as u64 {
        return Err(smoke_error("terminal text snapshot is too large"));
    }
    let expected: usize = expected64 as usize;
    if pixels.len() != expected {
        return Err(GpuBootstrapError::SmokeReadback(len_mismatch_message("terminal text snapshot", expected, pixels.len())));
    }
    Ok(ppm_encode(width, height, pixels))
}

/// Binary PPM snapshot of the welcome-image readback of a `width` x `height` target.
pub fn ppm_bytes(width: u32, height: u32, pixels: &[u8]) -> (r: Result<Vec<u8>, GpuBootstrapError>)
    requires
        width * height * 4 <= u64::MAX,
    ensures
        width * height * 4 > usize::MAX ==> (r matches Err(e) && is_smoke_error(e, "welcome image too large"@)),
        width * height * 4 <= usize::MAX && pixels@.len() != width * height * 4 ==> (r matches Err(e) && is_smoke_error(
            e,
            snapshot_len_mismatch("welcome image"@, (width * height * 4) as nat, pixels@.len()),
        )),
        pixels@.len() == width * height * 4 ==> (r matches Ok(out) && out@ == ppm_header(width, height) + rgb_bytes(
            pixels@,
            width * height,
        )),
{
    let _len = pixels.len();
    assert(width as int * height as int <= u32::MAX as int * u32::MAX as int) by (nonlinear_arith)
        requires width <= u32::MAX, height <= u32::MAX;
    let expected64: u64 = width as u64 * height as u64 * 4;
    if expected64 > usize::MAX as u64 {
        return Err(smoke_error("welcome image too large"));
    }
    let expected: usize = expected64 as usize;
    if pixels.len() != expected {
        return Err(GpuBootstrapError::SmokeReadback(len_mismatch_message("welcome image", expected, pixels.len())));
    }
    Ok(ppm_encode(width, height, pixels))
}

} // verus!
