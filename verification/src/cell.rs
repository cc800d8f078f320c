//! Terminal cell colors and styles as they reach the renderer.

use vstd::prelude::*;

verus! {

/// Terminal color selection for a cell attribute.
#[derive(Debug, Clone, Copy, PartialEq, Eq, Hash, Structural, Default)]
pub enum Color {
    /// The theme's default color.
    #[default]
    Default,
    /// One of the 16 ANSI palette colors.
    Ansi(u8),
    /// A 256-color palette index.
    Indexed(u8),
    /// A direct 24-bit color.
    Rgb(u8, u8, u8),
}

/// Underline line style.
#[derive(Debug, Clone, Copy, PartialEq, Eq, Hash, Structural, Default)]
pub enum UnderlineStyle {
    /// One straight line.
    #[default]
    Single,
    /// Two straight lines.
    Double,
    /// A curly line.
    Curly,
    /// A dotted line.
    Dotted,
    /// A dashed line.
    Dashed,
}

/// Visual attributes of one terminal cell.
#[derive(Debug, Clone, Copy, PartialEq, Eq, Hash, Structural, Default)]
pub struct Style {
    /// Foreground color.
    pub foreground: Color,
    /// Background color.
    pub background: Color,
    /// Bold weight.
    pub bold: bool,
    /// Faint intensity.
    pub dim: bool,
    /// Italic slant.
    pub italic: bool,
    /// Underline decoration.
    pub underline: bool,
    /// Underline line style.
    pub underline_style: UnderlineStyle,
    /// Identifier of an explicit underline color, 0 when none.
    pub underline_color_id: u16,
    /// Blinking text.
    pub blink: bool,
    /// Hidden text.
    pub hidden: bool,
    /// Swapped foreground and background.
    pub inverse: bool,
    /// Overline decoration.
    pub overline: bool,
    /// Strikethrough decoration.
    pub strikethrough: bool,
    /// Framed text.
    pub framed: bool,
    /// Encircled text.
    pub encircled: bool,
}

} // verus!
