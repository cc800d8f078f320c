//! Terminal color resolution to RGB8 values.

use vstd::prelude::*;

use crate::cell::{Color, Style};

verus! {

/// One of the 16 palette colors; indices past 15 select the last one.
pub open spec fn ansi_rgb8(index: u8, ansi: [[u8; 3]; 16]) -> [u8; 3] {
    ansi[if index > 15 { 15int } else { index as int }]
}

/// Channel value of step `v` (0..=5) of the 6x6x6 color cube.
pub open spec fn cube_component(v: u8) -> u8 {
    if v == 0 { 0 } else { (55 + v * 40) as u8 }
}

/// RGB of 256-color palette entry `index`: the 16 palette colors, the 6x6x6
/// color cube, then 24 shades of gray.
pub open spec fn indexed_rgb8(index: u8, ansi: [[u8; 3]; 16]) -> [u8; 3] {
    if index < 16 {
        ansi_rgb8(index, ansi)
    } else if index < 232 {
        let v = (index - 16) as u8;
        [cube_component(v / 36), cube_component((v % 36) / 6), cube_component(v % 6)]
    } else {
        let gray = (8 + (index - 232) * 10) as u8;
        [gray, gray, gray]
    }
}

/// RGB of a terminal color under the given theme.
pub open spec fn color_to_rgb8(color: Color, default_foreground: [u8; 3], ansi: [[u8; 3]; 16]) -> [u8; 3] {
    match color {
        Color::Default => default_foreground,
        Color::Ansi(index) => ansi_rgb8(index, ansi),
        Color::Indexed(index) => indexed_rgb8(index, ansi),
        Color::Rgb(r, g, b) => [r, g, b],
    }
}

/// Opaque RGBA of a terminal color under the given theme.
pub open spec fn opaque_rgba8(color: Color, default_foreground: [u8; 3], ansi: [[u8; 3]; 16]) -> [u8; 4] {
    let rgb = color_to_rgb8(color, default_foreground, ansi);
    [rgb[0], rgb[1], rgb[2], 255]
}

/// Fill color of a cell's background, or `None` when the default background shows through.
pub open spec fn background_rgba8(style: Style, default_foreground: [u8; 3], ansi: [[u8; 3]; 16]) -> Option<[u8; 4]> {
    let color = if style.inverse { style.foreground } else { style.background };
    if color == Color::Default && !style.inverse {
        None
    } else {
        Some(opaque_rgba8(color, default_foreground, ansi))
    }
}

/// Color of a text decoration: its own color, or the text color when it has none.
pub open spec fn decoration_rgba8(decoration_color: Color, style: Style, default_foreground: [u8; 3], ansi: [[u8; 3]; 16]) -> [u8; 4] {
    let color = if decoration_color == Color::Default {
        if style.inverse { style.background } else { style.foreground }
    } else {
        decoration_color
    };
    opaque_rgba8(color, default_foreground, ansi)
}

fn ansi_color_rgb8(index: u8, ansi: [[u8; 3]; 16]) -> (r: [u8; 3])
    ensures
        r == ansi_rgb8(index, ansi),
{
    let i: usize = if index > 15 { 15 } else { index as usize };
    ansi[i]
}

fn color_cube_component(value: u8) -> (r: u8)
    requires
        value <= 5,
    ensures
        r == cube_component(value),
{
    if value == 0 { 0 } else { 55 + (value * 40) }
}

fn indexed_color_rgb8(index: u8, ansi: [[u8; 3]; 16]) -> (r: [u8; 3])
    ensures
        r == indexed_rgb8(index, ansi),
{
    if index < 16 {
        return ansi_color_rgb8(index, ansi);
    }
    if index < 232 {
        let value = index - 16;
        let red = value / 36;
        let green = (value % 36) / 6;
        let blue = value % 6;
        return [color_cube_component(red), color_cube_component(green), color_cube_component(blue)];
    }
    let gray = 8 + ((index - 232) * 10);
    [gray, gray, gray]
}

/// RGB of a terminal color under the given theme.
pub fn color_rgb8(color: Color, default_foreground_rgb8: [u8; 3], ansi_colors_rgb8: [[u8; 3]; 16]) -> (r: [u8; 3])
    ensures
        r == color_to_rgb8(color, default_foreground_rgb8, ansi_colors_rgb8),
{
    match color {
        Color::Default => default_foreground_rgb8,
        Color::Ansi(index) => ansi_color_rgb8(index, ansi_colors_rgb8),
        Color::Indexed(index) => indexed_color_rgb8(index, ansi_colors_rgb8),
        Color::Rgb(red, green, blue) => [red, green, blue],
    }
}

/// Fill color of a cell's background, or `None` when the default background shows through.
pub fn style_background_rgba8(style: Style, default_foreground_rgb8: [u8; 3], ansi_colors_rgb8: [[u8; 3]; 16]) -> (r: Option<[u8; 4]>)
    ensures
        r == background_rgba8(style, default_foreground_rgb8, ansi_colors_rgb8),
{
    let color = if style.inverse { style.foreground } else { style.background };
    if color == Color::Default && !style.inverse {
        return None;
    }
    let rgb = color_rgb8(color, default_foreground_rgb8, ansi_colors_rgb8);
    Some([rgb[0], rgb[1], rgb[2], 255])
}

/// Color of a text decoration: its own color, or the text color when it has none.
pub fn decoration_color_rgba8(decoration_color: Color, style: Style, default_foreground_rgb8: [u8; 3], ansi_colors_rgb8: [[u8; 3]; 16]) -> (r: [u8; 4])
    ensures
        r == decoration_rgba8(decoration_color, style, default_foreground_rgb8, ansi_colors_rgb8),
{
    let color = if decoration_color == Color::Default {
        if style.inverse { style.background } else { style.foreground }
    } else {
        decoration_color
    };
    let rgb = color_rgb8(color, default_foreground_rgb8, ansi_colors_rgb8);
    [rgb[0], rgb[1], rgb[2], 255]
}

/// Whether two RGBA8 colors are equal.
pub fn same_rgba8(a: [u8; 4], b: [u8; 4]) -> (r: bool)
    ensures
        r == (a == b),
{
    let r = a[0] == b[0] && a[1] == b[1] && a[2] == b[2] && a[3] == b[3];
    proof {
        broadcast use vstd::array::axiom_array_ext_equal;
        if r {
            assert(a =~= b);
        }
    }
    r
}

} // verus!

verus! {

/// The 256-color palette: entries below 16 are the theme's 16 colors; entry
/// 16 + 36·r + 6·g + b (each of r, g, b below 6) is the color-cube color whose
/// red, green and blue channels are 0 for step 0 and 55 + 40·step otherwise;
/// entry 232 + k is the gray 8 + 10·k.
pub proof fn lemma_indexed_palette(default_foreground: [u8; 3], ansi: [[u8; 3]; 16])
    ensures
        forall|i: u8| i < 16 ==> #[trigger] color_to_rgb8(Color::Indexed(i), default_foreground, ansi) == ansi[i as int],
        forall|r: u8, g: u8, b: u8|
            r < 6 && g < 6 && b < 6 ==> #[trigger] color_to_rgb8(
                Color::Indexed((16 + 36 * r + 6 * g + b) as u8),
                default_foreground,
                ansi,
            ) == [
                (if r == 0 { 0 } else { 55 + 40 * r }) as u8,
                (if g == 0 { 0 } else { 55 + 40 * g }) as u8,
                (if b == 0 { 0 } else { 55 + 40 * b }) as u8,
            ],
        forall|k: u8| k < 24 ==> #[trigger] color_to_rgb8(Color::Indexed((232 + k) as u8), default_foreground, ansi) == [
            (8 + 10 * k) as u8,
            (8 + 10 * k) as u8,
            (8 + 10 * k) as u8,
        ],
{
    assert forall|r: u8, g: u8, b: u8| r < 6 && g < 6 && b < 6 implies #[trigger] color_to_rgb8(
        Color::Indexed((16 + 36 * r + 6 * g + b) as u8),
        default_foreground,
        ansi,
    ) == [
        (if r == 0 { 0 } else { 55 + 40 * r }) as u8,
        (if g == 0 { 0 } else { 55 + 40 * g }) as u8,
        (if b == 0 { 0 } else { 55 + 40 * b }) as u8,
    ] by {
        let v: int = 36 * r + 6 * g + b;
        assert(v / 36 == r && (v % 36) / 6 == g && v % 6 == b) by (nonlinear_arith)
            requires v == 36 * r + 6 * g + b, 0 <= r < 6, 0 <= g < 6, 0 <= b < 6;
    }
}

} // verus!
