//! Text-decoration extraction for render plans.

use vstd::prelude::*;

use crate::cell::{Color, Style, UnderlineStyle};
use crate::renderer::color::{decoration_color_rgba8, decoration_rgba8, same_rgba8};
use crate::renderer::plan::fill::sat_add16;
use crate::renderer::plan::types::{PlannedTextDecoration, TextDecorationKind};

verus! {

/// Whether decoration `d` ends right before (`row`, `col`) with the same kind and color.
pub open spec fn extends(d: PlannedTextDecoration, row: u16, col: u16, kind: TextDecorationKind, color: [u8; 4]) -> bool {
    d.row == row && sat_add16(d.col, d.cols) == col && d.kind == kind && d.color_rgba8 == color
}

/// Among the last four decorations, starting `t` from the end, the most recent one that
/// the new decoration extends.
pub open spec fn recent_match(decorations: Seq<PlannedTextDecoration>, t: int, row: u16, col: u16, kind: TextDecorationKind, color: [u8; 4]) -> Option<int>
    decreases 4 - t,
{
    let i = decorations.len() - 1 - t;
    if t < 0 || t >= 4 || i < 0 {
        None
    } else if extends(decorations[i], row, col, kind, color) {
        Some(i)
    } else {
        recent_match(decorations, t + 1, row, col, kind, color)
    }
}

/// The decorations after adding a one-cell decoration at (`row`, `col`): it
/// lengthens the most recent of the last four decorations that it extends, or is appended.
pub open spec fn with_decoration(decorations: Seq<PlannedTextDecoration>, row: u16, col: u16, kind: TextDecorationKind, color: [u8; 4]) -> Seq<PlannedTextDecoration> {
    match recent_match(decorations, 0, row, col, kind, color) {
        Some(i) => decorations.update(i, PlannedTextDecoration { cols: sat_add16(decorations[i].cols, 1), ..decorations[i] }),
        None => decorations.push(PlannedTextDecoration { row, col, cols: 1, kind, color_rgba8: color }),
    }
}

/// The decorations after adding the underline of a cell.
pub open spec fn with_underline(decorations: Seq<PlannedTextDecoration>, row: u16, col: u16, style: Style, underline_color: Color, default_foreground: [u8; 3], ansi: [[u8; 3]; 16]) -> Seq<PlannedTextDecoration> {
    let color = decoration_rgba8(underline_color, style, default_foreground, ansi);
    match style.underline_style {
        UnderlineStyle::Single => with_decoration(decorations, row, col, TextDecorationKind::Underline, color),
        UnderlineStyle::Double => with_decoration(
            with_decoration(decorations, row, col, TextDecorationKind::DoubleUnderlineTop, color),
            row,
            col,
            TextDecorationKind::DoubleUnderlineBottom,
            color,
        ),
        UnderlineStyle::Curly => with_decoration(decorations, row, col, TextDecorationKind::CurlyUnderline, color),
        UnderlineStyle::Dotted => with_decoration(decorations, row, col, TextDecorationKind::DottedUnderline, color),
        UnderlineStyle::Dashed => with_decoration(decorations, row, col, TextDecorationKind::DashedUnderline, color),
    }
}

/// The decorations after adding those of one cell: none for hidden text, else its
/// underline, overline and strikethrough, in that order.
pub open spec fn with_cell_decorations(decorations: Seq<PlannedTextDecoration>, row: u16, col: u16, style: Style, underline_color: Color, default_foreground: [u8; 3], ansi: [[u8; 3]; 16]) -> Seq<PlannedTextDecoration> {
    if style.hidden {
        decorations
    } else {
        let text_color = decoration_rgba8(Color::Default, style, default_foreground, ansi);
        let d1 = if style.underline {
            with_underline(decorations, row, col, style, underline_color, default_foreground, ansi)
        } else {
            decorations
        };
        let d2 = if style.overline { with_decoration(d1, row, col, TextDecorationKind::Overline, text_color) } else { d1 };
        if style.strikethrough { with_decoration(d2, row, col, TextDecorationKind::Strikethrough, text_color) } else { d2 }
    }
}

/// Add a one-cell decoration at (`row`, `col`), merging with a recent adjacent one.
pub fn append_text_decoration(decorations: &mut Vec<PlannedTextDecoration>, row: u16, col: u16, kind: TextDecorationKind, color_rgba8: [u8; 4])
    ensures
        final(decorations)@ == with_decoration(old(decorations)@, row, col, kind, color_rgba8),
{
    let n = decorations.len();
    let mut t: usize = 0;
    while t < 4 && t < n
        invariant
            0 <= t <= 4,
            n == decorations@.len(),
            decorations@ == old(decorations)@,
            recent_match(decorations@, 0, row, col, kind, color_rgba8) == recent_match(decorations@, t as int, row, col, kind, color_rgba8),
        decreases 4 - t,
    {
        let i = n - 1 - t;
        let last = decorations[i];
        if last.row == row && last.col.saturating_add(last.cols) == col && last.kind == kind && same_rgba8(last.color_rgba8, color_rgba8) {
            decorations.set(i, PlannedTextDecoration { cols: last.cols.saturating_add(1), ..last });
            return;
        }
        t = t + 1;
    }
    proof {
        assert(recent_match(decorations@, t as int, row, col, kind, color_rgba8) is None);
    }
    decorations.push(PlannedTextDecoration { row, col, cols: 1, kind, color_rgba8 });
}

fn append_underline_decorations(decorations: &mut Vec<PlannedTextDecoration>, row: u16, col: u16, style: Style, underline_color: Color, default_foreground_rgb8: [u8; 3], ansi_colors_rgb8: [[u8; 3]; 16])
    ensures
        final(decorations)@ == with_underline(old(decorations)@, row, col, style, underline_color, default_foreground_rgb8, ansi_colors_rgb8),
{
    let color_rgba8 = decoration_color_rgba8(underline_color, style, default_foreground_rgb8, ansi_colors_rgb8);
    match style.underline_style {
        UnderlineStyle::Single => append_text_decoration(decorations, row, col, TextDecorationKind::Underline, color_rgba8),
        UnderlineStyle::Double => {
            append_text_decoration(decorations, row, col, TextDecorationKind::DoubleUnderlineTop, color_rgba8);
            append_text_decoration(decorations, row, col, TextDecorationKind::DoubleUnderlineBottom, color_rgba8);
        },
        UnderlineStyle::Curly => append_text_decoration(decorations, row, col, TextDecorationKind::CurlyUnderline, color_rgba8),
        UnderlineStyle::Dotted => append_text_decoration(decorations, row, col, TextDecorationKind::DottedUnderline, color_rgba8),
        UnderlineStyle::Dashed => append_text_decoration(decorations, row, col, TextDecorationKind::DashedUnderline, color_rgba8),
    }
}

/// Add the decorations of cell (`row`, `col`).
pub fn append_cell_decorations(decorations: &mut Vec<PlannedTextDecoration>, row: u16, col: u16, style: Style, underline_color: Color, default_foreground_rgb8: [u8; 3], ansi_colors_rgb8: [[u8; 3]; 16])
    ensures
        final(decorations)@ == with_cell_decorations(old(decorations)@, row, col, style, underline_color, default_foreground_rgb8, ansi_colors_rgb8),
{
    if style.hidden {
        return;
    }
    if style.underline {
        append_underline_decorations(decorations, row, col, style, underline_color, default_foreground_rgb8, ansi_colors_rgb8);
    }
    if style.overline {
        append_text_decoration(decorations, row, col, TextDecorationKind::Overline, decoration_color_rgba8(Color::Default, style, default_foreground_rgb8, ansi_colors_rgb8));
    }
    if style.strikethrough {
        append_text_decoration(decorations, row, col, TextDecorationKind::Strikethrough, decoration_color_rgba8(Color::Default, style, default_foreground_rgb8, ansi_colors_rgb8));
    }
}

} // verus!
