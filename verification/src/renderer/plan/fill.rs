//! Selection hit-testing and merged background fills.

use vstd::prelude::*;

use crate::grid::SelectionRange;
use crate::renderer::color::same_rgba8;
use crate::renderer::plan::types::PlannedBackground;

verus! {

/// Whether (`row`, `col`) lies inside the selection, read in row-major order.
pub open spec fn selected(selection: Option<SelectionRange>, row: u16, col: u16) -> bool {
    match selection {
        None => false,
        Some(s) => {
            &&& s.start.row <= row <= s.end.row
            &&& (row == s.start.row ==> col >= s.start.col)
            &&& (row == s.end.row ==> col <= s.end.col)
        },
    }
}

fn selection_start_col(selection: SelectionRange, row: u16) -> (r: u16)
    ensures
        r == (if row == selection.start.row { selection.start.col } else { 0 }),
{
    if row == selection.start.row { selection.start.col } else { 0 }
}

fn selection_end_col(selection: SelectionRange, row: u16) -> (r: u16)
    ensures
        r == (if row == selection.end.row { selection.end.col } else { u16::MAX }),
{
    if row == selection.end.row { selection.end.col } else { u16::MAX }
}

/// Whether (`row`, `col`) lies inside the selection.
pub fn is_selected(selection: Option<SelectionRange>, row: u16, col: u16) -> (r: bool)
    ensures
        r == selected(selection, row, col),
{
    match selection {
        None => false,
        Some(selection) => row >= selection.start.row && row <= selection.end.row && col >= selection_start_col(
            selection,
            row,
        ) && col <= selection_end_col(selection, row),
    }
}

/// `a + b`, or `u16::MAX` when that does not fit.
pub open spec fn sat_add16(a: u16, b: u16) -> u16 {
    if a + b > u16::MAX { u16::MAX } else { (a + b) as u16 }
}

/// The background fills after filling cell (`row`, `col`) with `color`: the last
/// fill grows by one cell when it ends right before this cell on the same row with
/// the same color, otherwise a new one-cell fill is appended.
pub open spec fn with_background_fill(backgrounds: Seq<PlannedBackground>, row: u16, col: u16, color: [u8; 4]) -> Seq<PlannedBackground> {
    let n = backgrounds.len();
    if n > 0 && backgrounds[n - 1].row == row && sat_add16(backgrounds[n - 1].col, backgrounds[n - 1].cols) == col
        && backgrounds[n - 1].color_rgba8 == color {
        backgrounds.update(n - 1, PlannedBackground { cols: sat_add16(backgrounds[n - 1].cols, 1), ..backgrounds[n - 1] })
    } else {
        backgrounds.push(PlannedBackground { row, col, cols: 1, color_rgba8: color })
    }
}

/// Fill cell (`row`, `col`) with `color_rgba8`, merging with the previous fill when adjacent.
pub fn append_background_fill(backgrounds: &mut Vec<PlannedBackground>, row: u16, col: u16, color_rgba8: [u8; 4])
    ensures
        final(backgrounds)@ == with_background_fill(old(backgrounds)@, row, col, color_rgba8),
{
    let n = backgrounds.len();
    if n > 0 {
        let last = backgrounds[n - 1];
        if last.row == row && last.col.saturating_add(last.cols) == col && same_rgba8(last.color_rgba8, color_rgba8) {
            backgrounds.set(n - 1, PlannedBackground { cols: last.cols.saturating_add(1), ..last });
            return;
        }
    }
    backgrounds.push(PlannedBackground { row, col, cols: 1, color_rgba8 });
}

} // verus!

verus! {

/// Cell (`r1`, `c1`) comes no later than cell (`r2`, `c2`) in reading order.
pub open spec fn reading_le(r1: u16, c1: u16, r2: u16, c2: u16) -> bool {
    r1 < r2 || (r1 == r2 && c1 <= c2)
}

/// A selection covers exactly the cells from its start to its end in reading
/// order, both ends included: the cell at its end is selected whenever the start
/// does not come after it, and so is every cell in between.
pub proof fn lemma_selection_in_reading_order(s: SelectionRange, row: u16, col: u16)
    ensures
        selected(Some(s), row, col) <==> reading_le(s.start.row, s.start.col, row, col) && reading_le(
            row,
            col,
            s.end.row,
            s.end.col,
        ),
        reading_le(s.start.row, s.start.col, s.end.row, s.end.col) ==> selected(Some(s), s.end.row, s.end.col)
            && selected(Some(s), s.start.row, s.start.col),
{
}

} // verus!
