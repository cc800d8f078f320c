//! Padded RGBA8 texture readback layout and checked pixel access.

use vstd::prelude::*;
use vstd::slice::slice_subrange;

use crate::native_gpu::error::{is_smoke_error, smoke_error, GpuBootstrapError};
use crate::text::concat;

verus! {

/// Padded RGBA8 texture readback layout.
#[derive(Debug, Clone, Copy, PartialEq, Eq, Structural)]
pub struct ReadbackLayout {
    /// Texture width in pixels.
    pub width: u32,
    /// Texture height in pixels.
    pub height: u32,
    /// Dense bytes per row without GPU copy padding.
    pub dense_bytes_per_row: u32,
    /// Padded bytes per row required by `wgpu` texture-to-buffer copies.
    pub padded_bytes_per_row: u32,
    /// Total readback buffer size.
    pub buffer_size: u64,
}

/// Row alignment that `wgpu` requires of texture-to-buffer copies.
///
/// Reads `wgpu::COPY_BYTES_PER_ROW_ALIGNMENT`, which `wgpu` (through
/// `wgpu-types`) defines as the constant 256.
#[verifier::external_body]
fn copy_bytes_per_row_alignment() -> (r: u32)
    ensures
        r == 256,
{
    wgpu::COPY_BYTES_PER_ROW_ALIGNMENT
}

/// `a / b` rounded up.
pub open spec fn div_ceil(a: int, b: int) -> int {
    if a % b == 0 {
        a / b
    } else {
        a / b + 1
    }
}

/// Dense row bytes of a `width`-pixel RGBA8 row, padded up to a multiple of 256.
pub open spec fn padded_row_bytes(width: u32) -> int {
    div_ceil(width * 4, 256) * 256
}

impl ReadbackLayout {
    /// Build a padded layout for an RGBA8 texture.
    pub fn rgba8(width: u32, height: u32) -> (r: Result<Self, GpuBootstrapError>)
        ensures
            width * 4 > u32::MAX ==> (r matches Err(e) && is_smoke_error(e, "RGBA8 row byte size is too large"@)),
            width * 4 <= u32::MAX && padded_row_bytes(width) > u32::MAX ==> (r matches Err(e) && is_smoke_error(
                e,
                "padded readback row byte size is too large"@,
            )),
            width * 4 <= u32::MAX && padded_row_bytes(width) <= u32::MAX ==> r == Ok::<Self, GpuBootstrapError>(
                ReadbackLayout {
                    width,
                    height,
                    dense_bytes_per_row: (width * 4) as u32,
                    padded_bytes_per_row: padded_row_bytes(width) as u32,
                    buffer_size: (padded_row_bytes(width) * height) as u64,
                },
            ),
    {
        let dense_bytes_per_row = match width.checked_mul(4) {
            Some(n) => n,
            None => return Err(smoke_error("RGBA8 row byte size is too large")),
        };
        let align = copy_bytes_per_row_alignment();
        let rows = if dense_bytes_per_row % align == 0 {
            dense_bytes_per_row / align
        } else {
            dense_bytes_per_row / align + 1
        };
        let padded_bytes_per_row = match rows.checked_mul(align) {
            Some(n) => n,
            None => return Err(smoke_error("padded readback row byte size is too large")),
        };
        assert(padded_bytes_per_row as int * height as int <= u32::MAX as int * u32::MAX as int) by (nonlinear_arith)
            requires padded_bytes_per_row <= u32::MAX, height <= u32::MAX;
        Ok(Self {
            width,
            height,
            dense_bytes_per_row,
            padded_bytes_per_row,
            buffer_size: padded_bytes_per_row as u64 * height as u64,
        })
    }
}

/// The last RGBA8 pixel of `pixels`.
pub fn last_rgba_pixel<'a>(pixels: &'a [u8], label: &'static str) -> (r: Result<&'a [u8], GpuBootstrapError>)
    ensures
        pixels@.len() >= 4 ==> (r matches Ok(p) && p@ == pixels@.subrange(pixels@.len() - 4, pixels@.len() as int)),
        pixels@.len() < 4 ==> (r matches Err(e) && is_smoke_error(e, label@ + " is shorter than one RGBA pixel"@)),
{
    if pixels.len() < 4 {
        return Err(GpuBootstrapError::SmokeReadback(concat(label, " is shorter than one RGBA pixel")));
    }
    Ok(slice_subrange(pixels, pixels.len() - 4, pixels.len()))
}

/// RGBA8 pixel `pixel_index` of `pixels`.
pub fn rgba_pixel_at<'a>(pixels: &'a [u8], pixel_index: usize, label: &'static str) -> (r: Result<&'a [u8], GpuBootstrapError>)
    ensures
        pixel_index * 4 + 4 > usize::MAX ==> (r matches Err(e) && is_smoke_error(e, label@ + " byte offset is too large"@)),
        pixel_index * 4 + 4 <= usize::MAX && pixel_index * 4 + 4 > pixels@.len() ==> (r matches Err(e) && is_smoke_error(
            e,
            label@ + " is missing from readback"@,
        )),
        pixel_index * 4 + 4 <= pixels@.len() ==> (r matches Ok(p) && p@ == pixels@.subrange(
            pixel_index * 4,
            pixel_index * 4 + 4,
        )),
{
    let len = pixels.len();
    let start = match pixel_index.checked_mul(4) {
        Some(n) => n,
        None => return Err(GpuBootstrapError::SmokeReadback(concat(label, " byte offset is too large"))),
    };
    let end = match start.checked_add(4) {
        Some(n) => n,
        None => return Err(GpuBootstrapError::SmokeReadback(concat(label, " byte offset is too large"))),
    };
    if end > len {
        return Err(GpuBootstrapError::SmokeReadback(concat(label, " is missing from readback")));
    }
    Ok(slice_subrange(pixels, start, end))
}

/// First byte of padded row `r` in a mapped readback buffer.
pub open spec fn row_start(layout: ReadbackLayout, r: int) -> int {
    r * layout.padded_bytes_per_row
}

/// End of the dense bytes of padded row `r` in a mapped readback buffer.
pub open spec fn row_end(layout: ReadbackLayout, r: int) -> int {
    row_start(layout, r) + layout.dense_bytes_per_row
}

/// Why row `r` cannot be read from a mapped buffer of `len` bytes, if it cannot.
pub open spec fn row_error(layout: ReadbackLayout, len: int, r: int) -> Option<Seq<char>> {
    if row_start(layout, r) > usize::MAX {
        Some("readback row offset is too large"@)
    } else if row_end(layout, r) > usize::MAX {
        Some("readback row end offset is too large"@)
    } else if row_end(layout, r) > len {
        Some("readback row exceeds mapped buffer"@)
    } else {
        None
    }
}

/// Why one of the first `n` rows cannot be read: the first failing row's reason.
pub open spec fn rows_error(layout: ReadbackLayout, len: int, n: int) -> Option<Seq<char>>
    decreases n,
{
    if n <= 0 {
        None
    } else {
        match rows_error(layout, len, n - 1) {
            Some(m) => Some(m),
            None => row_error(layout, len, n - 1),
        }
    }
}

/// The dense bytes of the first `n` rows of `mapped`, without row padding.
pub open spec fn dense_rows(mapped: Seq<u8>, layout: ReadbackLayout, n: int) -> Seq<u8>
    decreases n,
{
    if n <= 0 {
        Seq::empty()
    } else {
        dense_rows(mapped, layout, n - 1) + mapped.subrange(row_start(layout, n - 1), row_end(layout, n - 1))
    }
}

/// Strip the row padding of a mapped readback buffer: the dense RGBA8 rows, in order.
pub fn dense_rgba8_rows(mapped: &[u8], layout: ReadbackLayout) -> (r: Result<Vec<u8>, GpuBootstrapError>)
    ensures
        layout.dense_bytes_per_row * layout.height > usize::MAX ==> (r matches Err(e) && is_smoke_error(
            e,
            "dense readback size is too large"@,
        )),
        layout.dense_bytes_per_row * layout.height <= usize::MAX ==> match rows_error(layout, mapped@.len() as int, layout.height as int) {
            Some(m) => r matches Err(e) && is_smoke_error(e, m),
            None => r matches Ok(v) && v@ == dense_rows(mapped@, layout, layout.height as int),
        },
{
    let row_bytes: usize = layout.dense_bytes_per_row as usize;
    let height: usize = layout.height as usize;
    if row_bytes.checked_mul(height).is_none() {
        return Err(smoke_error("dense readback size is too large"));
    }
    let mut dense: Vec<u8> = Vec::new();
    let mut row: u32 = 0;
    while row < layout.height
        invariant
            row <= layout.height,
            row_bytes == layout.dense_bytes_per_row,
            layout.dense_bytes_per_row * layout.height <= usize::MAX,
            rows_error(layout, mapped@.len() as int, row as int) is None,
            dense@ == dense_rows(mapped@, layout, row as int),
        decreases layout.height - row,
    {
        assert(row as int * layout.padded_bytes_per_row as int <= u32::MAX as int * u32::MAX as int) by (nonlinear_arith)
            requires row <= u32::MAX, layout.padded_bytes_per_row <= u32::MAX;
        let start64: u64 = row as u64 * layout.padded_bytes_per_row as u64;
        if start64 > usize::MAX as u64 {
            proof {
                lemma_rows_error_sticks(layout, mapped@.len() as int, row as int + 1, layout.height as int);
            }
            return Err(smoke_error("readback row offset is too large"));
        }
        let start: usize = start64 as usize;
        let end = match start.checked_add(row_bytes) {
            Some(n) => n,
            None => {
                proof {
                    lemma_rows_error_sticks(layout, mapped@.len() as int, row as int + 1, layout.height as int);
                }
                return Err(smoke_error("readback row end offset is too large"));
            },
        };
        if end > mapped.len() {
            proof {
                lemma_rows_error_sticks(layout, mapped@.len() as int, row as int + 1, layout.height as int);
            }
            return Err(smoke_error("readback row exceeds mapped buffer"));
        }
        dense.extend_from_slice(slice_subrange(mapped, start, end));
        row = row + 1;
    }
    Ok(dense)
}

/// Once one of the first `n` rows fails, the first failing row stays the same for every `m >= n`.
proof fn lemma_rows_error_sticks(layout: ReadbackLayout, len: int, n: int, m: int)
    requires
        0 <= n <= m,
        rows_error(layout, len, n) is Some,
    ensures
        rows_error(layout, len, m) == rows_error(layout, len, n),
    decreases m - n,
{
    if n < m {
        lemma_rows_error_sticks(layout, len, n, m - 1);
    }
}

} // verus!

verus! {

/// Padded readback rows are the dense row rounded up to the next multiple of
/// 256 bytes: never shorter than the dense row, and less than 256 bytes longer.
pub proof fn lemma_padded_row_bounds(width: u32)
    ensures
        padded_row_bytes(width) % 256 == 0,
        width * 4 <= padded_row_bytes(width) < width * 4 + 256,
{
    let dense = width * 4;
    assert(div_ceil(dense, 256) * 256 >= dense && div_ceil(dense, 256) * 256 < dense + 256 && (div_ceil(dense, 256) * 256) % 256 == 0) by (nonlinear_arith)
        requires dense >= 0;
}

} // verus!
