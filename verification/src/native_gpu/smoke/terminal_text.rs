//! Sizing of the terminal-text smoke render target.

use vstd::prelude::*;

use crate::native_gpu::error::{is_smoke_error, smoke_error, GpuBootstrapError};

verus! {

/// Smallest contrast ratio, times 100, that sampled terminal text must reach
/// against its background.
pub const MIN_TERMINAL_TEXT_CONTRAST_X100: u32 = 700;

/// Pixel size of a `cols` x `rows` terminal whose cells are `slot_width` x `slot_height`.
pub fn checked_terminal_text_target_dimensions(cols: u16, rows: u16, slot_width: u32, slot_height: u32) -> (r: Result<(u32, u32), GpuBootstrapError>)
    ensures
        cols * slot_width > u32::MAX ==> (r matches Err(e) && is_smoke_error(
            e,
            "terminal text target width is too large to represent"@,
        )),
        cols * slot_width <= u32::MAX && rows * slot_height > u32::MAX ==> (r matches Err(e) && is_smoke_error(
            e,
            "terminal text target height is too large to represent"@,
        )),
        cols * slot_width <= u32::MAX && rows * slot_height <= u32::MAX ==> r == Ok::<(u32, u32), GpuBootstrapError>(
            ((cols * slot_width) as u32, (rows * slot_height) as u32),
        ),
{
    let width = match (cols as u32).checked_mul(slot_width) {
        Some(w) => w,
        None => return Err(smoke_error("terminal text target width is too large to represent")),
    };
    let height = match (rows as u32).checked_mul(slot_height) {
        Some(h) => h,
        None => return Err(smoke_error("terminal text target height is too large to represent")),
    };
    Ok((width, height))
}

} // verus!
