//! Terminal grid snapshots handed to the renderer.

use vstd::prelude::*;

use crate::cell::{Color, Style};

verus! {

/// A rectangle of grid cells that changed since the last frame.
#[derive(Debug, Clone, Copy, PartialEq, Eq, Structural)]
pub struct DirtyRegion {
    /// First row.
    pub row: u16,
    /// First column.
    pub col: u16,
    /// Number of rows.
    pub rows: u16,
    /// Number of columns.
    pub cols: u16,
}

/// Cursor drawing shape.
#[derive(Debug, Clone, Copy, PartialEq, Eq, Structural, Default)]
pub enum CursorShape {
    /// Full cell block.
    #[default]
    Block,
    /// Line under the cell.
    Underline,
    /// Vertical bar before the cell.
    Bar,
}

/// Cursor state for one frame.
#[derive(Debug, Clone, Copy, PartialEq, Eq, Structural, Default)]
pub struct CursorSnapshot {
    /// Cursor row.
    pub row: u16,
    /// Cursor column.
    pub col: u16,
    /// Whether the cursor is shown.
    pub visible: bool,
    /// Cursor shape.
    pub shape: CursorShape,
    /// Whether the cursor blinks.
    pub blinking: bool,
}

/// A grid position.
#[derive(Debug, Clone, Copy, PartialEq, Eq, Structural)]
pub struct SelectionPoint {
    /// Row.
    pub row: u16,
    /// Column.
    pub col: u16,
}

/// A selection running from `start` to `end` in reading order, both inclusive.
#[derive(Debug, Clone, Copy, PartialEq, Eq, Structural)]
pub struct SelectionRange {
    /// First selected position.
    pub start: SelectionPoint,
    /// Last selected position.
    pub end: SelectionPoint,
}

/// One grid cell as seen by the renderer.
#[derive(Debug, Clone, PartialEq, Eq, Default)]
pub struct CellSnapshot {
    /// Text cluster shown in the cell (empty for a blank cell).
    pub text: String,
    /// Cell style.
    pub style: Style,
    /// Whether the cell holds the first half of a double-width glyph.
    pub is_wide_leading: bool,
    /// Whether the cell holds the second half of a double-width glyph.
    pub is_wide_trailing: bool,
}

/// Immutable view of the terminal grid for one frame.
#[derive(Debug, Clone, PartialEq, Eq, Default)]
pub struct GridSnapshot {
    /// Number of rows.
    pub rows: u16,
    /// Number of columns.
    pub cols: u16,
    /// Cells in row-major order; missing cells read as blank.
    pub cells: Vec<CellSnapshot>,
    /// Explicit underline colors; a style's nonzero `underline_color_id` selects entry `id - 1`.
    pub underline_colors: Vec<Color>,
    /// Current selection, if any.
    pub selection: Option<SelectionRange>,
}

impl GridSnapshot {
    /// Position of cell (`row`, `col`) in `cells`.
    pub open spec fn cell_index(&self, row: u16, col: u16) -> int {
        row * self.cols + col
    }

    /// The cell at (`row`, `col`), if the snapshot holds it.
    pub open spec fn cell_at(&self, row: u16, col: u16) -> Option<CellSnapshot> {
        if col < self.cols && 0 <= self.cell_index(row, col) < self.cells@.len() {
            Some(self.cells@[self.cell_index(row, col)])
        } else {
            None
        }
    }

    /// The cell at (`row`, `col`), if the snapshot holds it.
    pub fn cell(&self, row: u16, col: u16) -> (r: Option<&CellSnapshot>)
        ensures
            match r {
                Some(c) => self.cell_at(row, col) == Some(*c),
                None => self.cell_at(row, col) is None,
            },
    {
        if col >= self.cols {
            return None;
        }
        assert(row * self.cols <= 65535 * 65535) by (nonlinear_arith)
            requires row <= 65535, self.cols <= 65535;
        let index: usize = row as usize * self.cols as usize + col as usize;
        if index < self.cells.len() {
            Some(&self.cells[index])
        } else {
            None
        }
    }

    /// Underline color selected by a style.
    pub open spec fn underline_color_of(&self, style: Style) -> Color {
        let id = style.underline_color_id;
        if id == 0 || id > self.underline_colors@.len() {
            Color::Default
        } else {
            self.underline_colors@[id - 1]
        }
    }

    /// Explicit underline color of the cell at (`row`, `col`), or the default color.
    pub fn cell_underline_color(&self, row: u16, col: u16) -> (c: Color)
        ensures
            c == (match self.cell_at(row, col) {
                Some(cell) => self.underline_color_of(cell.style),
                None => Color::Default,
            }),
    {
        match self.cell(row, col) {
            Some(cell) => {
                let id = cell.style.underline_color_id as usize;
                if id == 0 || id > self.underline_colors.len() {
                    Color::Default
                } else {
                    self.underline_colors[id - 1]
                }
            },
            None => Color::Default,
        }
    }
}

} // verus!
