//! Shaped-cell placement of glyph bitmaps inside fixed terminal atlas slots.

use vstd::prelude::*;

use crate::renderer::image::bitmap::padding_error;
use crate::renderer::image::{is_placed_image, GlyphBitmap, GlyphImageError};

verus! {

/// Pixels the glyph extends before its origin (left of the cell or above the baseline).
pub open spec fn leading_extent(origin: i32) -> int {
    if origin < 0 {
        if origin == i32::MIN { i32::MAX as int } else { -origin }
    } else {
        0
    }
}

/// Pixels the glyph covers after its origin, saturated to the `i32` range.
pub open spec fn trailing_extent(origin: i32, size: u32) -> int {
    let end = origin + size;
    if end > i32::MAX { i32::MAX as int } else if end < 0 { 0 } else { end }
}

/// Minimum slot size needed along one axis to keep the glyph's placement.
pub open spec fn slot_extent(origin: i32, size: u32, cell: u32) -> int {
    let covered = leading_extent(origin) + trailing_extent(origin, size);
    let saturated = if covered > u32::MAX { u32::MAX as int } else { covered };
    let with_cell = if saturated > cell { saturated } else { cell as int };
    if with_cell > size { with_cell } else { size as int }
}

/// Offset of the glyph inside a slot of `target` pixels along one axis, when representable.
pub open spec fn slot_offset(origin: i32, size: u32, target: u32) -> Option<int> {
    let extra = (target - slot_extent(origin, size, 0)) / 2;
    let shifted = leading_extent(origin) + extra;
    let saturated = if shifted > u32::MAX { u32::MAX as int } else { shifted };
    if saturated > i32::MAX {
        None
    } else if saturated + origin > i32::MAX || saturated + origin < 0 {
        None
    } else {
        Some(saturated + origin)
    }
}

/// Offset of a glyph inside its slot.
#[derive(Debug, Clone, Copy, PartialEq, Eq)]
pub struct TerminalSlotPlacement {
    /// Left offset in pixels.
    pub x: u32,
    /// Top offset in pixels.
    pub y: u32,
}

fn leading_extent_exec(origin: i32) -> (r: u32)
    ensures
        r == leading_extent(origin),
{
    if origin < 0 {
        if origin == i32::MIN {
            i32::MAX as u32
        } else {
            (-origin) as u32
        }
    } else {
        0
    }
}

fn trailing_extent_exec(origin: i32, size: u32) -> (r: u32)
    ensures
        r == trailing_extent(origin, size),
{
    let end: i64 = origin as i64 + size as i64;
    if end > i32::MAX as i64 {
        i32::MAX as u32
    } else if end < 0 {
        0
    } else {
        end as u32
    }
}

fn slot_extent_exec(origin: i32, size: u32, cell: u32) -> (r: u32)
    ensures
        r == slot_extent(origin, size, cell),
{
    let covered: u64 = leading_extent_exec(origin) as u64 + trailing_extent_exec(origin, size) as u64;
    let saturated: u32 = if covered > u32::MAX as u64 { u32::MAX } else { covered as u32 };
    let with_cell = if saturated > cell { saturated } else { cell };
    if with_cell > size { with_cell } else { size }
}

fn slot_offset_exec(origin: i32, size: u32, target: u32) -> (r: Option<u32>)
    requires
        target >= slot_extent(origin, size, 0),
    ensures
        r == (match slot_offset(origin, size, target) {
            Some(v) => Some(v as u32),
            None => None::<u32>,
        }),
{
    let extra = (target - slot_extent_exec(origin, size, 0)) / 2;
    let shifted: u64 = leading_extent_exec(origin) as u64 + extra as u64;
    let saturated: u64 = if shifted > u32::MAX as u64 { u32::MAX as u64 } else { shifted };
    if saturated > i32::MAX as u64 {
        return None;
    }
    let value: i64 = saturated as i64 + origin as i64;
    if value > i32::MAX as i64 || value < 0 {
        None
    } else {
        Some(value as u32)
    }
}

impl GlyphBitmap {
    /// Minimum fixed atlas slot width needed to preserve this glyph's horizontal placement.
    pub fn terminal_slot_width(&self, cell_width: u32) -> (r: u32)
        ensures
            r == slot_extent(self.origin_x, self.width, cell_width),
    {
        slot_extent_exec(self.origin_x, self.width, cell_width)
    }

    /// Minimum fixed atlas slot height needed to preserve this glyph's vertical placement.
    pub fn terminal_slot_height(&self, cell_height: u32) -> (r: u32)
        ensures
            r == slot_extent(self.origin_y, self.height, cell_height),
    {
        slot_extent_exec(self.origin_y, self.height, cell_height)
    }

    /// Where this glyph sits inside a `target_width` x `target_height` terminal slot.
    pub fn terminal_slot_placement(&self, target_width: u32, target_height: u32) -> (r: Result<TerminalSlotPlacement, GlyphImageError>)
        ensures
            (target_width < slot_extent(self.origin_x, self.width, 0) || target_height < slot_extent(self.origin_y, self.height, 0))
                ==> r == Err::<TerminalSlotPlacement, GlyphImageError>(GlyphImageError::PaddingTargetTooSmall {
                target_width,
                target_height,
                glyph_width: slot_extent(self.origin_x, self.width, 0) as u32,
                glyph_height: slot_extent(self.origin_y, self.height, 0) as u32,
            }),
            !(target_width < slot_extent(self.origin_x, self.width, 0) || target_height < slot_extent(self.origin_y, self.height, 0))
                ==> r == (match (slot_offset(self.origin_x, self.width, target_width), slot_offset(self.origin_y, self.height, target_height)) {
                (Some(x), Some(y)) => Ok(TerminalSlotPlacement { x: x as u32, y: y as u32 }),
                _ => Err(GlyphImageError::RgbaImageOffsetTooLarge),
            }),
    {
        let required_width = self.terminal_slot_width(0);
        let required_height = self.terminal_slot_height(0);
        if target_width < required_width || target_height < required_height {
            return Err(GlyphImageError::PaddingTargetTooSmall {
                target_width,
                target_height,
                glyph_width: required_width,
                glyph_height: required_height,
            });
        }
        let x = match slot_offset_exec(self.origin_x, self.width, target_width) {
            Some(x) => x,
            None => return Err(GlyphImageError::RgbaImageOffsetTooLarge),
        };
        let y = match slot_offset_exec(self.origin_y, self.height, target_height) {
            Some(y) => y,
            None => return Err(GlyphImageError::RgbaImageOffsetTooLarge),
        };
        Ok(TerminalSlotPlacement { x, y })
    }

    /// What copying this glyph into a transparent `tw` x `th` bitmap at (`tx`, `ty`) gives.
    pub open spec fn slot_at_outcome(&self, tw: u32, th: u32, tx: u32, ty: u32, r: Result<Self, GlyphImageError>) -> bool {
        if tw < self.width || th < self.height || tx + self.width > tw || ty + self.height > th {
            r == Err::<Self, GlyphImageError>(
                GlyphImageError::PaddingTargetTooSmall {
                    target_width: tw,
                    target_height: th,
                    glyph_width: self.width,
                    glyph_height: self.height,
                },
            )
        } else if self.width == tw && self.height == th && tx == 0 && ty == 0 {
            r matches Ok(g) && {
                &&& g.entry == self.entry
                &&& g.origin_x == 0
                &&& g.origin_y == 0
                &&& g.width == self.width
                &&& g.height == self.height
                &&& g.rgba@ == self.rgba@
            }
        } else {
            match padding_error(self.width as int, self.height as int, self.rgba@.len() as int, self.entry.slot, tw as int, th as int) {
                Some(e) => r == Err::<Self, GlyphImageError>(e),
                None => r matches Ok(g) && {
                    &&& g.entry == self.entry
                    &&& g.origin_x == 0
                    &&& g.origin_y == 0
                    &&& g.width == tw
                    &&& g.height == th
                    &&& is_placed_image(g.rgba@, self.rgba@, self.width as int, self.height as int, tw as int, th as int, tx as int, ty as int)
                },
            }
        }
    }

    /// Copies this glyph into a transparent `target_width` x `target_height` bitmap at
    /// (`target_x`, `target_y`).
    pub fn padded_to_slot_at(&self, target_width: u32, target_height: u32, target_x: u32, target_y: u32) -> (r: Result<Self, GlyphImageError>)
        ensures
            self.slot_at_outcome(target_width, target_height, target_x, target_y, r),
    {
        let too_small = GlyphImageError::PaddingTargetTooSmall {
            target_width,
            target_height,
            glyph_width: self.width,
            glyph_height: self.height,
        };
        if target_width < self.width || target_height < self.height {
            return Err(too_small);
        }
        match target_x.checked_add(self.width) {
            Some(right) => {
                if right > target_width {
                    return Err(too_small);
                }
            },
            None => return Err(too_small),
        }
        match target_y.checked_add(self.height) {
            Some(bottom) => {
                if bottom > target_height {
                    return Err(too_small);
                }
            },
            None => return Err(too_small),
        }
        if self.width == target_width && self.height == target_height && target_x == 0 && target_y == 0 {
            let mut glyph = self.duplicate();
            glyph.origin_x = 0;
            glyph.origin_y = 0;
            return Ok(glyph);
        }
        self.place_checked(target_width, target_height, target_x, target_y)
    }

    /// What copying this glyph into a `tw` x `th` terminal slot, keeping its
    /// shaped placement, gives.
    pub open spec fn terminal_slot_outcome(&self, tw: u32, th: u32, r: Result<Self, GlyphImageError>) -> bool {
        if tw < slot_extent(self.origin_x, self.width, 0) || th < slot_extent(self.origin_y, self.height, 0) {
            r == Err::<Self, GlyphImageError>(
                GlyphImageError::PaddingTargetTooSmall {
                    target_width: tw,
                    target_height: th,
                    glyph_width: slot_extent(self.origin_x, self.width, 0) as u32,
                    glyph_height: slot_extent(self.origin_y, self.height, 0) as u32,
                },
            )
        } else {
            match (slot_offset(self.origin_x, self.width, tw), slot_offset(self.origin_y, self.height, th)) {
                (Some(x), Some(y)) => self.slot_at_outcome(tw, th, x as u32, y as u32, r),
                _ => r == Err::<Self, GlyphImageError>(GlyphImageError::RgbaImageOffsetTooLarge),
            }
        }
    }

    /// The error, if any, of copying this glyph into a `tw` x `th` bitmap at (`tx`, `ty`).
    pub open spec fn slot_at_error(&self, tw: u32, th: u32, tx: u32, ty: u32) -> Option<GlyphImageError> {
        if tw < self.width || th < self.height || tx + self.width > tw || ty + self.height > th {
            Some(
                GlyphImageError::PaddingTargetTooSmall {
                    target_width: tw,
                    target_height: th,
                    glyph_width: self.width,
                    glyph_height: self.height,
                },
            )
        } else if self.width == tw && self.height == th && tx == 0 && ty == 0 {
            None
        } else {
            padding_error(self.width as int, self.height as int, self.rgba@.len() as int, self.entry.slot, tw as int, th as int)
        }
    }

    /// The error, if any, of copying this glyph into a `tw` x `th` terminal slot.
    pub open spec fn terminal_slot_error(&self, tw: u32, th: u32) -> Option<GlyphImageError> {
        if tw < slot_extent(self.origin_x, self.width, 0) || th < slot_extent(self.origin_y, self.height, 0) {
            Some(
                GlyphImageError::PaddingTargetTooSmall {
                    target_width: tw,
                    target_height: th,
                    glyph_width: slot_extent(self.origin_x, self.width, 0) as u32,
                    glyph_height: slot_extent(self.origin_y, self.height, 0) as u32,
                },
            )
        } else {
            match (slot_offset(self.origin_x, self.width, tw), slot_offset(self.origin_y, self.height, th)) {
                (Some(x), Some(y)) => self.slot_at_error(tw, th, x as u32, y as u32),
                _ => Some(GlyphImageError::RgbaImageOffsetTooLarge),
            }
        }
    }

    /// Return this glyph copied into a larger transparent bitmap using shaped cell placement.
    pub fn padded_to_terminal_slot(&self, target_width: u32, target_height: u32) -> (r: Result<Self, GlyphImageError>)
        ensures
            self.terminal_slot_outcome(target_width, target_height, r),
            r matches Err(e) ==> self.terminal_slot_error(target_width, target_height) == Some(e),
            r is Ok ==> self.terminal_slot_error(target_width, target_height) is None,
            r matches Ok(g) ==> g.entry == self.entry && g.width == target_width && g.height == target_height,
    {
        let placement = self.terminal_slot_placement(target_width, target_height)?;
        self.padded_to_slot_at(target_width, target_height, placement.x, placement.y)
    }
}

/// Along one axis, the span a glyph needs to keep its placement: from the nearer
/// of its pen origin and its box's start to the farther of the origin and the box's end.
pub open spec fn placement_span(origin: int, size: int) -> int {
    (if origin < 0 { -origin } else { 0 }) + (if origin + size > 0 { origin + size } else { 0 })
}

/// Along one axis, where the pen origin lands in a slot of `target` pixels: after
/// the glyph's overhang before the origin, plus half the spare room.
pub open spec fn pen_position(origin: int, size: int, target: int) -> int {
    (if origin < 0 { -origin } else { 0 }) + (target - placement_span(origin, size)) / 2
}

/// Along one axis: in a slot at least as large as the placement span, the glyph
/// sits at its pen position plus its origin, wholly inside the slot.
proof fn lemma_axis_placement(origin: i32, size: u32, target: u32)
    requires
        -0x3fff_ffff <= origin <= 0x3fff_ffff,
        size <= 0x3fff_ffff,
        target <= i32::MAX,
        target >= placement_span(origin as int, size as int),
    ensures
        slot_extent(origin, size, 0) == placement_span(origin as int, size as int),
        slot_offset(origin, size, target) == Some(pen_position(origin as int, size as int, target as int) + origin),
        0 <= pen_position(origin as int, size as int, target as int) + origin,
        pen_position(origin as int, size as int, target as int) + origin + size <= target,
{
}

/// Padding a glyph into a terminal slot keeps its shaped placement: a slot at
/// least as large as the glyph's placement span on both axes always takes the
/// glyph, and the glyph is copied at its pen position plus its origin, wholly
/// inside the slot, with the rest of the slot transparent.
pub proof fn lemma_terminal_slot_keeps_placement(g: GlyphBitmap, tw: u32, th: u32, r: Result<GlyphBitmap, GlyphImageError>)
    requires
        -0x3fff_ffff <= g.origin_x <= 0x3fff_ffff,
        -0x3fff_ffff <= g.origin_y <= 0x3fff_ffff,
        g.width <= 0x3fff_ffff,
        g.height <= 0x3fff_ffff,
        tw <= i32::MAX,
        th <= i32::MAX,
        tw >= placement_span(g.origin_x as int, g.width as int),
        th >= placement_span(g.origin_y as int, g.height as int),
        g.rgba@.len() == g.width * g.height * 4,
        g.width * g.height * 4 <= usize::MAX,
        tw * 4 <= usize::MAX,
        tw * th * 4 <= usize::MAX,
        g.terminal_slot_outcome(tw, th, r),
    ensures
        r is Ok,
        0 <= pen_position(g.origin_x as int, g.width as int, tw as int) + g.origin_x,
        pen_position(g.origin_x as int, g.width as int, tw as int) + g.origin_x + g.width <= tw,
        0 <= pen_position(g.origin_y as int, g.height as int, th as int) + g.origin_y,
        pen_position(g.origin_y as int, g.height as int, th as int) + g.origin_y + g.height <= th,
        g.slot_at_outcome(
            tw,
            th,
            (pen_position(g.origin_x as int, g.width as int, tw as int) + g.origin_x) as u32,
            (pen_position(g.origin_y as int, g.height as int, th as int) + g.origin_y) as u32,
            r,
        ),
{
    lemma_axis_placement(g.origin_x, g.width, tw);
    lemma_axis_placement(g.origin_y, g.height, th);
}

} // verus!
