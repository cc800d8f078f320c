//! Clipping dirty regions to the grid.

use vstd::prelude::*;

use crate::grid::{DirtyRegion, GridSnapshot};

verus! {

/// A dirty region clipped to the grid: rows `row_start..row_end`, columns `col_start..col_end`.
#[derive(Debug, Clone, Copy, PartialEq, Eq, Structural)]
pub struct ClippedDirtyRegion {
    /// First row.
    pub row_start: u16,
    /// One past the last row.
    pub row_end: u16,
    /// First column.
    pub col_start: u16,
    /// One past the last column.
    pub col_end: u16,
}

impl ClippedDirtyRegion {
    /// Number of rows.
    pub fn rows(self) -> (r: u16)
        requires
            self.row_start <= self.row_end,
        ensures
            r == self.row_end - self.row_start,
    {
        self.row_end - self.row_start
    }

    /// Number of columns.
    pub fn cols(self) -> (r: u16)
        requires
            self.col_start <= self.col_end,
        ensures
            r == self.col_end - self.col_start,
    {
        self.col_end - self.col_start
    }
}

/// The part of `region` inside a `rows` x `cols` grid, or `None` when it is empty.
pub open spec fn clip(region: DirtyRegion, rows: u16, cols: u16) -> Option<ClippedDirtyRegion> {
    let row_start = if region.row < rows { region.row } else { rows };
    let col_start = if region.col < cols { region.col } else { cols };
    let row_end = if region.row + region.rows < rows { (region.row + region.rows) as u16 } else { rows };
    let col_end = if region.col + region.cols < cols { (region.col + region.cols) as u16 } else { cols };
    if row_start >= row_end || col_start >= col_end {
        None
    } else {
        Some(ClippedDirtyRegion { row_start, row_end, col_start, col_end })
    }
}

/// The part of `region` inside the grid, computed with widened bounds.
pub fn clipped_dirty_region(region: &DirtyRegion, grid: &GridSnapshot) -> (r: Option<ClippedDirtyRegion>)
    ensures
        r == clip(*region, grid.rows, grid.cols),
{
    let row_start = if region.row < grid.rows { region.row } else { grid.rows };
    let col_start = if region.col < grid.cols { region.col } else { grid.cols };
    let row_sum: u32 = region.row as u32 + region.rows as u32;
    let col_sum: u32 = region.col as u32 + region.cols as u32;
    let row_end: u32 = if row_sum < grid.rows as u32 { row_sum } else { grid.rows as u32 };
    let col_end: u32 = if col_sum < grid.cols as u32 { col_sum } else { grid.cols as u32 };
    let row_end = row_end as u16;
    let col_end = col_end as u16;
    if row_start >= row_end || col_start >= col_end {
        return None;
    }
    Some(ClippedDirtyRegion { row_start, row_end, col_start, col_end })
}

} // verus!
