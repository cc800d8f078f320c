//! Glyph cache keys.

use vstd::prelude::*;

use crate::cell::{Color, Style, UnderlineStyle};

verus! {

/// Stable glyph cache text identity.
#[derive(Debug, Clone, PartialEq, Eq, Hash)]
pub enum GlyphKeyText {
    /// A single scalar value.
    Scalar(char),
    /// A multi-scalar terminal cell text cluster.
    Cluster(String),
}

/// Stable glyph cache key.
#[derive(Debug, Clone, PartialEq, Eq, Hash)]
pub struct GlyphKey {
    /// Text to render.
    pub text: GlyphKeyText,
    /// Cell style.
    pub style: Style,
    /// Font size in pixels.
    pub font_size_px: u16,
}

/// Mathematical value of a glyph key's text.
pub ghost enum GlyphKeyTextModel {
    /// A single scalar value.
    Scalar(char),
    /// A text cluster.
    Cluster(Seq<char>),
}

/// Mathematical value of a glyph key: two keys are the same key iff their models are equal.
pub ghost struct GlyphKeyModel {
    /// Text identity.
    pub text: GlyphKeyTextModel,
    /// Rasterization style.
    pub style: Style,
    /// Font size in pixels.
    pub font_size_px: u16,
}

impl View for GlyphKeyText {
    type V = GlyphKeyTextModel;

    open spec fn view(&self) -> GlyphKeyTextModel {
        match self {
            GlyphKeyText::Scalar(c) => GlyphKeyTextModel::Scalar(*c),
            GlyphKeyText::Cluster(s) => GlyphKeyTextModel::Cluster(s@),
        }
    }
}

impl View for GlyphKey {
    type V = GlyphKeyModel;

    open spec fn view(&self) -> GlyphKeyModel {
        GlyphKeyModel { text: self.text@, style: self.style, font_size_px: self.font_size_px }
    }
}

/// The style a glyph is rasterized with: only the attributes that change glyph
/// shapes are kept; colors and decorations are reset to their defaults.
pub open spec fn raster_style(style: Style) -> Style {
    Style {
        foreground: Color::Default,
        background: Color::Default,
        dim: false,
        underline: false,
        underline_style: UnderlineStyle::Single,
        underline_color_id: 0,
        blink: false,
        hidden: false,
        inverse: false,
        overline: false,
        strikethrough: false,
        framed: false,
        encircled: false,
        ..style
    }
}

/// The key of the glyph for cell text `text` whose first character is `first`:
/// a scalar key when the text's UTF-8 encoding is exactly as long as that of
/// `first`, else a cluster key.
pub open spec fn key_for_text(text: Seq<char>, first: char, style: Style, font_size_px: u16) -> GlyphKeyModel {
    GlyphKeyModel {
        text: if (vstd::utf8::encode_utf8(text).len() as usize) == utf8_width(first) {
            GlyphKeyTextModel::Scalar(first)
        } else {
            GlyphKeyTextModel::Cluster(text)
        },
        style: raster_style(style),
        font_size_px,
    }
}

/// Number of bytes in the UTF-8 encoding of `c`.
pub open spec fn utf8_width(c: char) -> nat {
    if (c as u32) < 0x80 {
        1
    } else if (c as u32) < 0x800 {
        2
    } else if (c as u32) < 0x10000 {
        3
    } else {
        4
    }
}

/// Number of bytes in the UTF-8 encoding of `c`.
pub fn utf8_len(c: char) -> (r: usize)
    ensures
        r == utf8_width(c),
{
    let v = c as u32;
    if v < 0x80 {
        1
    } else if v < 0x800 {
        2
    } else if v < 0x10000 {
        3
    } else {
        4
    }
}

/// The style a glyph is rasterized with.
pub fn glyph_raster_style(style: Style) -> (r: Style)
    ensures
        r == raster_style(style),
{
    Style {
        foreground: Color::Default,
        background: Color::Default,
        dim: false,
        underline: false,
        underline_style: UnderlineStyle::Single,
        underline_color_id: 0,
        blink: false,
        hidden: false,
        inverse: false,
        overline: false,
        strikethrough: false,
        framed: false,
        encircled: false,
        ..style
    }
}

impl GlyphKey {
    /// Build a glyph cache key.
    pub fn new(ch: char, style: Style, font_size_px: u16) -> (k: Self)
        ensures
            k@ == (GlyphKeyModel { text: GlyphKeyTextModel::Scalar(ch), style: raster_style(style), font_size_px }),
    {
        Self { text: GlyphKeyText::Scalar(ch), style: glyph_raster_style(style), font_size_px }
    }

    /// Build a glyph cache key for a full terminal cell text cluster: a scalar key
    /// when the text is exactly as long as the encoding of `first_char`, else a cluster key.
    pub fn for_text(text: &str, first_char: char, style: Style, font_size_px: u16) -> (k: Self)
        ensures
            k@ == key_for_text(text@, first_char, style, font_size_px),
    {
        if text.len() == utf8_len(first_char) {
            Self::new(first_char, style, font_size_px)
        } else {
            Self {
                text: GlyphKeyText::Cluster(text.to_owned()),
                style: glyph_raster_style(style),
                font_size_px,
            }
        }
    }

    /// Whether two keys name the same glyph.
    pub fn same_key(&self, other: &GlyphKey) -> (r: bool)
        ensures
            r == (self@ == other@),
    {
        let same_text = match (&self.text, &other.text) {
            (GlyphKeyText::Scalar(a), GlyphKeyText::Scalar(b)) => *a == *b,
            (GlyphKeyText::Cluster(a), GlyphKeyText::Cluster(b)) => *a == *b,
            _ => false,
        };
        same_text && self.style == other.style && self.font_size_px == other.font_size_px
    }

    /// A copy of this key.
    pub fn duplicate(&self) -> (k: Self)
        ensures
            k@ == self@,
    {
        let text = match &self.text {
            GlyphKeyText::Scalar(c) => GlyphKeyText::Scalar(*c),
            GlyphKeyText::Cluster(s) => GlyphKeyText::Cluster(s.clone()),
        };
        Self { text, style: self.style, font_size_px: self.font_size_px }
    }
}

/// Glyphs are keyed by shape, not color: two cell styles rasterize alike
/// exactly when they agree on bold and italic, so the same text at the same size
/// gets one glyph key for any colors or decorations, and a different key when
/// bold or italic differs.
pub proof fn lemma_key_keeps_shape(text: Seq<char>, first: char, s1: Style, s2: Style, font_size_px: u16)
    ensures
        raster_style(s1).bold == s1.bold && raster_style(s1).italic == s1.italic,
        raster_style(s1) == raster_style(s2) <==> (s1.bold == s2.bold && s1.italic == s2.italic),
        key_for_text(text, first, s1, font_size_px) == key_for_text(text, first, s2, font_size_px) <==> (s1.bold == s2.bold
            && s1.italic == s2.italic),
{
    if raster_style(s1) == raster_style(s2) {
        assert(raster_style(s1).bold == raster_style(s2).bold);
        assert(raster_style(s1).italic == raster_style(s2).italic);
    }
    if key_for_text(text, first, s1, font_size_px) == key_for_text(text, first, s2, font_size_px) {
        assert(key_for_text(text, first, s1, font_size_px).style == key_for_text(text, first, s2, font_size_px).style);
    }
}

} // verus!
