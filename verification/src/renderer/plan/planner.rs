//! Building render plans from terminal snapshots.

use vstd::prelude::*;

use crate::cell::{Color, Style, UnderlineStyle};
use crate::error::GromaqError;
use crate::grid::{CursorSnapshot, DirtyRegion, GridSnapshot};
use crate::renderer::atlas::cache::{lemma_lookup_headroom, GlyphAtlasModel};
use crate::renderer::atlas::key::{key_for_text, GlyphKeyModel};
use crate::renderer::atlas::{GlyphAtlas, GlyphEntry, GlyphKey};
use crate::renderer::color::{background_rgba8, decoration_rgba8, style_background_rgba8};
use crate::renderer::plan::clipping::{clip, clipped_dirty_region, ClippedDirtyRegion};
use crate::renderer::plan::decorations::{
    append_cell_decorations, extends, recent_match, with_cell_decorations, with_decoration, with_underline,
};
use crate::renderer::plan::fill::{append_background_fill, is_selected, sat_add16, selected, with_background_fill};
use crate::renderer::plan::text::{all_whitespace, first_char, is_all_whitespace};
use crate::renderer::plan::types::{PlannedBackground, PlannedGlyph, PlannedTextDecoration, RenderPlan, TextDecorationKind};

verus! {

/// Default foreground color of a planner made with [`RenderPlanner::new`].
pub const DEFAULT_FOREGROUND_RGB8: [u8; 3] = [229, 229, 229];

/// Default 16-color ANSI palette.
pub const DEFAULT_ANSI_COLORS_RGB8: [[u8; 3]; 16] = [
    [0, 0, 0],
    [205, 49, 49],
    [13, 188, 121],
    [229, 229, 16],
    [36, 114, 200],
    [188, 63, 188],
    [17, 168, 205],
    [229, 229, 229],
    [102, 102, 102],
    [241, 76, 76],
    [35, 209, 139],
    [245, 245, 67],
    [59, 142, 234],
    [214, 112, 214],
    [41, 184, 219],
    [255, 255, 255],
];

/// Default selection background color.
pub const DEFAULT_SELECTION_RGB8: [u8; 3] = [38, 79, 120];

/// Mathematical value of a planned glyph.
pub ghost struct PlannedGlyphModel {
    /// Grid row.
    pub row: u16,
    /// Grid column.
    pub col: u16,
    /// Cell text.
    pub text: Seq<char>,
    /// First character of the text.
    pub ch: char,
    /// Cell style.
    pub style: Style,
    /// Font size.
    pub font_size_px: u16,
    /// Whether the glyph spans two cells.
    pub is_wide: bool,
    /// Atlas entry.
    pub atlas_entry: GlyphEntry,
}

impl View for PlannedGlyph {
    type V = PlannedGlyphModel;

    open spec fn view(&self) -> PlannedGlyphModel {
        PlannedGlyphModel {
            row: self.row,
            col: self.col,
            text: self.text@,
            ch: self.ch,
            style: self.style,
            font_size_px: self.font_size_px,
            is_wide: self.is_wide,
            atlas_entry: self.atlas_entry,
        }
    }
}

/// What planning has produced so far, and the atlas state it left.
pub ghost struct PlanState {
    /// Background fills.
    pub backgrounds: Seq<PlannedBackground>,
    /// Text decorations.
    pub decorations: Seq<PlannedTextDecoration>,
    /// Glyph draw commands.
    pub glyphs: Seq<PlannedGlyphModel>,
    /// Glyph atlas state.
    pub atlas: GlyphAtlasModel,
}

/// CPU-side render planner for deterministic renderer tests.
#[derive(Debug, Clone, Copy, PartialEq, Eq)]
pub struct RenderPlanner {
    font_size_px: u16,
    default_foreground_rgb8: [u8; 3],
    ansi_colors_rgb8: [[u8; 3]; 16],
    selection_background_rgba8: [u8; 4],
}

/// The style of a cell the snapshot does not hold.
pub open spec fn blank_style() -> Style {
    Style {
        foreground: Color::Default,
        background: Color::Default,
        bold: false,
        dim: false,
        italic: false,
        underline: false,
        underline_style: UnderlineStyle::Single,
        underline_color_id: 0,
        blink: false,
        hidden: false,
        inverse: false,
        overline: false,
        strikethrough: false,
        framed: false,
        encircled: false,
    }
}

fn blank_cell_style() -> (s: Style)
    ensures
        s == blank_style(),
{
    Style {
        foreground: Color::Default,
        background: Color::Default,
        bold: false,
        dim: false,
        italic: false,
        underline: false,
        underline_style: UnderlineStyle::Single,
        underline_color_id: 0,
        blink: false,
        hidden: false,
        inverse: false,
        overline: false,
        strikethrough: false,
        framed: false,
        encircled: false,
    }
}

/// Style of cell (`row`, `col`); blank for cells the snapshot does not hold.
pub open spec fn cell_style(grid: GridSnapshot, row: u16, col: u16) -> Style {
    match grid.cell_at(row, col) {
        Some(c) => c.style,
        None => blank_style(),
    }
}

/// Text of cell (`row`, `col`); empty for cells the snapshot does not hold.
pub open spec fn cell_text(grid: GridSnapshot, row: u16, col: u16) -> Seq<char> {
    match grid.cell_at(row, col) {
        Some(c) => c.text@,
        None => Seq::empty(),
    }
}

/// Whether cell (`row`, `col`) draws a glyph: it holds text that is not all
/// whitespace and is not the trailing half of a wide glyph.
pub open spec fn draws_glyph(grid: GridSnapshot, row: u16, col: u16) -> bool {
    match grid.cell_at(row, col) {
        Some(c) => c.text@.len() > 0 && !c.is_wide_trailing && !all_whitespace(c.text@),
        None => false,
    }
}

/// Explicit underline color of cell (`row`, `col`).
pub open spec fn cell_underline(grid: GridSnapshot, row: u16, col: u16) -> Color {
    match grid.cell_at(row, col) {
        Some(c) => grid.underline_color_of(c.style),
        None => Color::Default,
    }
}

impl RenderPlanner {
    /// Font size glyphs are planned at.
    pub closed spec fn font(&self) -> u16 {
        self.font_size_px
    }

    /// Theme default foreground color.
    pub closed spec fn foreground(&self) -> [u8; 3] {
        self.default_foreground_rgb8
    }

    /// Theme ANSI palette.
    pub closed spec fn palette(&self) -> [[u8; 3]; 16] {
        self.ansi_colors_rgb8
    }

    /// Background color of selected cells.
    pub closed spec fn selection_background(&self) -> [u8; 4] {
        self.selection_background_rgba8
    }

    /// Background fill of cell (`row`, `col`): the selection color when selected,
    /// else its style's background, if any.
    pub open spec fn cell_fill(&self, grid: GridSnapshot, row: u16, col: u16) -> Option<[u8; 4]> {
        if selected(grid.selection, row, col) {
            Some(self.selection_background())
        } else {
            background_rgba8(cell_style(grid, row, col), self.foreground(), self.palette())
        }
    }

    /// The glyph planned for cell (`row`, `col`), which draws text, and the atlas
    /// state after looking its key up in `atlas`: the cell's text, first
    /// character and style at this planner's font size, with the entry the lookup returns.
    #[verifier::opaque]
    pub open spec fn glyph_at(&self, grid: GridSnapshot, atlas: GlyphAtlasModel, row: u16, col: u16) -> (GlyphAtlasModel, PlannedGlyphModel) {
        let text = cell_text(grid, row, col);
        let style = cell_style(grid, row, col);
        let key = key_for_text(text, text[0], style, self.font());
        let looked = atlas.lookup(key);
        (
            looked.0,
            PlannedGlyphModel {
                row,
                col,
                text,
                ch: text[0],
                style,
                font_size_px: self.font(),
                is_wide: grid.cell_at(row, col)->0.is_wide_leading,
                atlas_entry: looked.1,
            },
        )
    }

    /// The plan state after planning cell (`row`, `col`).
    pub open spec fn cell_step(&self, grid: GridSnapshot, st: PlanState, row: u16, col: u16) -> PlanState {
        let style = cell_style(grid, row, col);
        let backgrounds = match self.cell_fill(grid, row, col) {
            Some(color) => with_background_fill(st.backgrounds, row, col, color),
            None => st.backgrounds,
        };
        let decorations = with_cell_decorations(
            st.decorations,
            row,
            col,
            style,
            cell_underline(grid, row, col),
            self.foreground(),
            self.palette(),
        );
        if draws_glyph(grid, row, col) {
            let (atlas, glyph) = self.glyph_at(grid, st.atlas, row, col);
            PlanState { backgrounds, decorations, glyphs: st.glyphs.push(glyph), atlas }
        } else {
            PlanState { backgrounds, decorations, ..st }
        }
    }

    /// The plan state after planning the dirty cells among columns `0..c1` of
    /// row `row`, left to right.
    pub open spec fn plan_row(&self, grid: GridSnapshot, regions: Seq<DirtyRegion>, st: PlanState, row: int, c1: int) -> PlanState
        decreases c1,
    {
        if c1 <= 0 {
            st
        } else {
            let before = self.plan_row(grid, regions, st, row, c1 - 1);
            if is_dirty_cell(regions, grid.rows, grid.cols, row, c1 - 1) {
                self.cell_step(grid, before, row as u16, (c1 - 1) as u16)
            } else {
                before
            }
        }
    }

    /// The plan state after planning the dirty cells of rows `0..r1`, in row-major order.
    pub open spec fn plan_grid(&self, grid: GridSnapshot, regions: Seq<DirtyRegion>, st: PlanState, r1: int) -> PlanState
        decreases r1,
    {
        if r1 <= 0 {
            st
        } else {
            self.plan_row(grid, regions, self.plan_grid(grid, regions, st, r1 - 1), r1 - 1, grid.cols as int)
        }
    }
}

/// A vector holding the given dirty regions, in order.
fn copy_regions(regions: &[DirtyRegion]) -> (v: Vec<DirtyRegion>)
    ensures
        v@ == regions@,
{
    let mut v: Vec<DirtyRegion> = Vec::new();
    let mut i: usize = 0;
    while i < regions.len()
        invariant
            i <= regions@.len(),
            v@ == regions@.subrange(0, i as int),
        decreases regions@.len() - i,
    {
        v.push(regions[i]);
        i = i + 1;
    }
    v
}

/// Whether cell (`row`, `col`) lies inside the clipped region `c`.
pub open spec fn in_clip(c: Option<ClippedDirtyRegion>, row: int, col: int) -> bool {
    c matches Some(r) && r.row_start <= row < r.row_end && r.col_start <= col < r.col_end
}

/// Whether cell (`row`, `col`) lies in one of `regions` clipped to a `rows` x `cols` grid.
pub open spec fn is_dirty_cell(regions: Seq<DirtyRegion>, rows: u16, cols: u16, row: int, col: int) -> bool {
    exists|i: int| 0 <= i < regions.len() && #[trigger] in_clip(clip(regions[i], rows, cols), row, col)
}

/// Number of dirty cells among columns `0..c1` of row `row`.
pub open spec fn dirty_in_row(regions: Seq<DirtyRegion>, rows: u16, cols: u16, row: int, c1: int) -> nat
    decreases c1,
{
    if c1 <= 0 {
        0
    } else {
        dirty_in_row(regions, rows, cols, row, c1 - 1) + if is_dirty_cell(regions, rows, cols, row, c1 - 1) {
            1nat
        } else {
            0nat
        }
    }
}

/// Number of dirty cells in rows `0..r1`.
pub open spec fn dirty_in_rows(regions: Seq<DirtyRegion>, rows: u16, cols: u16, r1: int) -> nat
    decreases r1,
{
    if r1 <= 0 {
        0
    } else {
        dirty_in_rows(regions, rows, cols, r1 - 1) + dirty_in_row(regions, rows, cols, r1 - 1, cols as int)
    }
}

/// Number of distinct grid cells that the dirty regions cover.
pub open spec fn dirty_cells(regions: Seq<DirtyRegion>, rows: u16, cols: u16) -> nat {
    dirty_in_rows(regions, rows, cols, rows as int)
}

proof fn lemma_dirty_in_row_mono(regions: Seq<DirtyRegion>, rows: u16, cols: u16, row: int, a: int, b: int)
    requires
        a <= b,
    ensures
        dirty_in_row(regions, rows, cols, row, a) <= dirty_in_row(regions, rows, cols, row, b),
    decreases b - a,
{
    if a < b {
        lemma_dirty_in_row_mono(regions, rows, cols, row, a, b - 1);
    }
}

proof fn lemma_dirty_in_rows_mono(regions: Seq<DirtyRegion>, rows: u16, cols: u16, a: int, b: int)
    requires
        a <= b,
    ensures
        dirty_in_rows(regions, rows, cols, a) <= dirty_in_rows(regions, rows, cols, b),
    decreases b - a,
{
    if a < b {
        lemma_dirty_in_rows_mono(regions, rows, cols, a, b - 1);
    }
}

/// Whether cell (`row`, `col`) lies in one of the dirty regions clipped to the grid.
fn cell_is_dirty(regions: &[DirtyRegion], grid: &GridSnapshot, row: u16, col: u16) -> (r: bool)
    ensures
        r == is_dirty_cell(regions@, grid.rows, grid.cols, row as int, col as int),
{
    let mut i: usize = 0;
    while i < regions.len()
        invariant
            i <= regions@.len(),
            forall|j: int| 0 <= j < i ==> !#[trigger] in_clip(clip(regions@[j], grid.rows, grid.cols), row as int, col as int),
        decreases regions@.len() - i,
    {
        match clipped_dirty_region(&regions[i], grid) {
            Some(c) => {
                if c.row_start <= row && row < c.row_end && c.col_start <= col && col < c.col_end {
                    proof {
                        assert(in_clip(clip(regions@[i as int], grid.rows, grid.cols), row as int, col as int));
                    }
                    return true;
                }
            },
            None => {},
        }
        i = i + 1;
    }
    false
}

impl RenderPlanner {
    /// `plan` and the atlas state `after` are what planning `regions` of `grid`
    /// from atlas state `before` gives: every grid cell that a dirty region
    /// covers, once and in row-major order, adds its background fill, its
    /// decorations, and, when it draws text, a glyph whose atlas entry is looked
    /// up in the atlas.
    pub open spec fn is_frame_plan(
        &self,
        grid: GridSnapshot,
        cursor: CursorSnapshot,
        regions: Seq<DirtyRegion>,
        before: GlyphAtlasModel,
        plan: RenderPlan,
        after: GlyphAtlasModel,
    ) -> bool {
        let st = self.plan_grid(
            grid,
            regions,
            PlanState { backgrounds: Seq::empty(), decorations: Seq::empty(), glyphs: Seq::empty(), atlas: before },
            grid.rows as int,
        );
        &&& plan.viewport_cols == grid.cols
        &&& plan.viewport_rows == grid.rows
        &&& plan.cursor == cursor
        &&& plan.default_foreground_rgb8 == self.foreground()
        &&& plan.ansi_colors_rgb8 == self.palette()
        &&& plan.clear_regions@ == regions
        &&& plan.backgrounds@ == st.backgrounds
        &&& plan.decorations@ == st.decorations
        &&& plan.glyphs@.map_values(|g: PlannedGlyph| g@) == st.glyphs
        &&& after == st.atlas
    }

    /// Create a render planner with the full visual theme.
    pub fn with_visual_theme(font_size_px: u16, default_foreground_rgb8: [u8; 3], ansi_colors_rgb8: [[u8; 3]; 16], selection_background_rgba8: [u8; 4]) -> (p: Self)
        ensures
            p.font() == font_size_px,
            p.foreground() == default_foreground_rgb8,
            p.palette() == ansi_colors_rgb8,
            p.selection_background() == selection_background_rgba8,
    {
        Self { font_size_px, default_foreground_rgb8, ansi_colors_rgb8, selection_background_rgba8 }
    }

    /// Create a render planner for a fixed font size and theme palette, selecting
    /// with the default selection color.
    pub fn with_theme(font_size_px: u16, default_foreground_rgb8: [u8; 3], ansi_colors_rgb8: [[u8; 3]; 16]) -> (p: Self)
        ensures
            p.font() == font_size_px,
            p.foreground() == default_foreground_rgb8,
            p.palette() == ansi_colors_rgb8,
            p.selection_background() == [DEFAULT_SELECTION_RGB8[0], DEFAULT_SELECTION_RGB8[1], DEFAULT_SELECTION_RGB8[2], 255u8],
    {
        Self::with_visual_theme(
            font_size_px,
            default_foreground_rgb8,
            ansi_colors_rgb8,
            [DEFAULT_SELECTION_RGB8[0], DEFAULT_SELECTION_RGB8[1], DEFAULT_SELECTION_RGB8[2], 255],
        )
    }

    /// Create a render planner for a fixed font size and default foreground color.
    pub fn with_default_foreground(font_size_px: u16, default_foreground_rgb8: [u8; 3]) -> (p: Self)
        ensures
            p.font() == font_size_px,
            p.foreground() == default_foreground_rgb8,
            p.palette() == DEFAULT_ANSI_COLORS_RGB8,
            p.selection_background() == [DEFAULT_SELECTION_RGB8[0], DEFAULT_SELECTION_RGB8[1], DEFAULT_SELECTION_RGB8[2], 255u8],
    {
        Self::with_theme(font_size_px, default_foreground_rgb8, DEFAULT_ANSI_COLORS_RGB8)
    }

    /// Create a render planner for a fixed font size.
    pub fn new(font_size_px: u16) -> (p: Self)
        ensures
            p.font() == font_size_px,
            p.foreground() == DEFAULT_FOREGROUND_RGB8,
            p.palette() == DEFAULT_ANSI_COLORS_RGB8,
            p.selection_background() == [DEFAULT_SELECTION_RGB8[0], DEFAULT_SELECTION_RGB8[1], DEFAULT_SELECTION_RGB8[2], 255u8],
    {
        Self::with_default_foreground(font_size_px, DEFAULT_FOREGROUND_RGB8)
    }

    /// Build a deterministic render plan from a terminal snapshot and dirty regions:
    /// every grid cell that a dirty region covers is planned once, in row-major
    /// order, adding its background fill, its decorations, and, when it draws
    /// text, a glyph whose atlas entry is looked up in `atlas`.
    pub fn plan_frame(&mut self, grid: &GridSnapshot, cursor: CursorSnapshot, dirty_regions: &[DirtyRegion], atlas: &mut GlyphAtlas) -> (r: Result<RenderPlan, GromaqError>)
        requires
            old(atlas).wf(),
            old(atlas)@.has_headroom(dirty_cells(dirty_regions@, grid.rows, grid.cols)),
        ensures
            *final(self) == *old(self),
            final(atlas).wf(),
            r matches Ok(plan) && old(self).is_frame_plan(*grid, cursor, dirty_regions@, old(atlas)@, plan, final(atlas)@)
                && glyphs_row_major(plan.glyphs@.map_values(|g: PlannedGlyph| g@))
                && backgrounds_row_major(plan.backgrounds@) && decorations_row_major(plan.decorations@),
    {
        let mut backgrounds: Vec<PlannedBackground> = Vec::new();
        let mut decorations: Vec<PlannedTextDecoration> = Vec::new();
        let mut glyphs: Vec<PlannedGlyph> = Vec::new();
        let ghost init = PlanState {
            backgrounds: Seq::empty(),
            decorations: Seq::empty(),
            glyphs: Seq::empty(),
            atlas: atlas@,
        };
        let ghost regions = dirty_regions@;
        let ghost total = dirty_cells(regions, grid.rows, grid.cols);
        proof {
            assert(glyphs@.map_values(|g: PlannedGlyph| g@) =~= Seq::<PlannedGlyphModel>::empty());
        }
        let mut row: u16 = 0;
        while row < grid.rows
            invariant
                row <= grid.rows,
                regions == dirty_regions@,
                total == dirty_cells(regions, grid.rows, grid.cols),
                atlas.wf(),
                dirty_in_rows(regions, grid.rows, grid.cols, row as int) <= total,
                atlas@.has_headroom((total - dirty_in_rows(regions, grid.rows, grid.cols, row as int)) as nat),
                ({
                    let st = self.plan_grid(*grid, regions, init, row as int);
                    &&& backgrounds@ == st.backgrounds
                    &&& decorations@ == st.decorations
                    &&& glyphs@.map_values(|g: PlannedGlyph| g@) == st.glyphs
                    &&& atlas@ == st.atlas
                }),
            decreases grid.rows - row,
        {
            let ghost row_before = self.plan_grid(*grid, regions, init, row as int);
            let ghost done: nat = dirty_in_rows(regions, grid.rows, grid.cols, row as int);
            proof {
                lemma_dirty_in_rows_mono(regions, grid.rows, grid.cols, row + 1, grid.rows as int);
            }
            let mut col: u16 = 0;
            while col < grid.cols
                invariant
                    col <= grid.cols,
                    row < grid.rows,
                    regions == dirty_regions@,
                    done == dirty_in_rows(regions, grid.rows, grid.cols, row as int),
                    done + dirty_in_row(regions, grid.rows, grid.cols, row as int, grid.cols as int) <= total,
                    atlas.wf(),
                    atlas@.has_headroom((total - done - dirty_in_row(regions, grid.rows, grid.cols, row as int, col as int)) as nat),
                    ({
                        let st = self.plan_row(*grid, regions, row_before, row as int, col as int);
                        &&& backgrounds@ == st.backgrounds
                        &&& decorations@ == st.decorations
                        &&& glyphs@.map_values(|g: PlannedGlyph| g@) == st.glyphs
                        &&& atlas@ == st.atlas
                    }),
                decreases grid.cols - col,
            {
                proof {
                    lemma_dirty_in_row_mono(regions, grid.rows, grid.cols, row as int, col + 1, grid.cols as int);
                }
                if cell_is_dirty(dirty_regions, grid, row, col) {
                    let ghost left: nat = (total - done - dirty_in_row(regions, grid.rows, grid.cols, row as int, col as int)) as nat;
                    self.plan_cell(grid, row, col, &mut backgrounds, &mut decorations, &mut glyphs, atlas, Ghost(left));
                }
                col = col + 1;
            }
            row = row + 1;
        }
        let plan = RenderPlan {
            viewport_cols: grid.cols,
            viewport_rows: grid.rows,
            cursor,
            default_foreground_rgb8: self.default_foreground_rgb8,
            ansi_colors_rgb8: self.ansi_colors_rgb8,
            clear_regions: copy_regions(dirty_regions),
            backgrounds,
            decorations,
            glyphs,
        };
        proof {
            lemma_plan_is_row_major(*self, *grid, cursor, dirty_regions@, init.atlas, plan, atlas@);
        }
        Ok(plan)
    }

    /// Plans one cell: its background fill, decorations and glyph.
    fn plan_cell(
        &self,
        grid: &GridSnapshot,
        row: u16,
        col: u16,
        backgrounds: &mut Vec<PlannedBackground>,
        decorations: &mut Vec<PlannedTextDecoration>,
        glyphs: &mut Vec<PlannedGlyph>,
        atlas: &mut GlyphAtlas,
        Ghost(left): Ghost<nat>,
    )
        requires
            old(atlas).wf(),
            left >= 1,
            old(atlas)@.has_headroom(left),
        ensures
            final(atlas).wf(),
            final(atlas)@.has_headroom((left - 1) as nat),
            ({
                let st = self.cell_step(
                    *grid,
                    PlanState {
                        backgrounds: old(backgrounds)@,
                        decorations: old(decorations)@,
                        glyphs: old(glyphs)@.map_values(|g: PlannedGlyph| g@),
                        atlas: old(atlas)@,
                    },
                    row,
                    col,
                );
                &&& final(backgrounds)@ == st.backgrounds
                &&& final(decorations)@ == st.decorations
                &&& final(glyphs)@.map_values(|g: PlannedGlyph| g@) == st.glyphs
                &&& final(atlas)@ == st.atlas
            }),
    {
        proof {
            reveal(RenderPlanner::glyph_at);
        }
        let cell_opt = grid.cell(row, col);
        let style = match cell_opt {
            Some(cell) => cell.style,
            None => blank_cell_style(),
        };
        let fill = if is_selected(grid.selection, row, col) {
            Some(self.selection_background_rgba8)
        } else {
            style_background_rgba8(style, self.default_foreground_rgb8, self.ansi_colors_rgb8)
        };
        if let Some(color) = fill {
            append_background_fill(backgrounds, row, col, color);
        }
        append_cell_decorations(decorations, row, col, style, grid.cell_underline_color(row, col), self.default_foreground_rgb8, self.ansi_colors_rgb8);
        if let Some(cell) = cell_opt {
            if !cell.text.as_str().is_empty() && !cell.is_wide_trailing && !is_all_whitespace(cell.text.as_str()) {
                let ch = first_char(cell.text.as_str());
                let text = cell.text.clone();
                let key = GlyphKey::for_text(text.as_str(), ch, cell.style, self.font_size_px);
                proof {
                    atlas.lemma_consistent_bounds();
                    lemma_lookup_headroom(atlas@, key@, (left - 1) as nat);
                }
                let ghost old_glyphs = glyphs@;
                let entry = match atlas.lookup_or_insert(key) {
                    Ok(entry) => entry,
                    Err(_) => return,
                };
                glyphs.push(PlannedGlyph {
                    row,
                    col,
                    text,
                    ch,
                    style: cell.style,
                    font_size_px: self.font_size_px,
                    is_wide: cell.is_wide_leading,
                    atlas_entry: entry,
                });
                proof {
                    assert(glyphs@.map_values(|g: PlannedGlyph| g@) =~= old_glyphs.map_values(|g: PlannedGlyph| g@).push(glyphs@.last()@));
                }
                return;
            }
        }
    }
}

} // verus!

verus! {

/// Cell (`r`, `c`) comes before cell (`row`, `col`) in row-major order.
pub open spec fn cell_before(r: u16, c: u16, row: int, col: int) -> bool {
    r < row || (r == row && c < col)
}

/// Glyphs are in strictly increasing row-major order: no cell holds two.
pub open spec fn glyphs_row_major(glyphs: Seq<PlannedGlyphModel>) -> bool {
    forall|i: int, j: int|
        0 <= i < j < glyphs.len() ==> cell_before(#[trigger] glyphs[i].row, glyphs[i].col, (#[trigger] glyphs[j]).row as int, glyphs[j].col as int)
}

/// Background fills start in strictly increasing row-major order.
pub open spec fn backgrounds_row_major(backgrounds: Seq<PlannedBackground>) -> bool {
    forall|i: int, j: int|
        0 <= i < j < backgrounds.len() ==> cell_before(
            #[trigger] backgrounds[i].row,
            backgrounds[i].col,
            (#[trigger] backgrounds[j]).row as int,
            backgrounds[j].col as int,
        )
}

/// Text decorations start in row-major order: a later decoration never starts
/// before an earlier one (one cell may start several decorations of different kinds).
pub open spec fn decorations_row_major(decorations: Seq<PlannedTextDecoration>) -> bool {
    forall|i: int, j: int|
        0 <= i < j < decorations.len() ==> !cell_before(
            (#[trigger] decorations[j]).row,
            decorations[j].col,
            (#[trigger] decorations[i]).row as int,
            decorations[i].col as int,
        )
}

/// Decorations in row-major order, none starting after cell (`row`, `col`).
spec fn decorations_upto(d: Seq<PlannedTextDecoration>, row: int, col: int) -> bool {
    &&& decorations_row_major(d)
    &&& forall|i: int| 0 <= i < d.len() ==> cell_before((#[trigger] d[i]).row, d[i].col, row, col + 1)
}

/// The decoration found to extend lies among the decorations.
proof fn lemma_recent_match_in_range(d: Seq<PlannedTextDecoration>, t: int, row: u16, col: u16, kind: TextDecorationKind, color: [u8; 4])
    ensures
        recent_match(d, t, row, col, kind, color) matches Some(i) ==> 0 <= i < d.len(),
    decreases 4 - t,
{
    let i = d.len() - 1 - t;
    if !(t < 0 || t >= 4 || i < 0) && !extends(d[i], row, col, kind, color) {
        lemma_recent_match_in_range(d, t + 1, row, col, kind, color);
    }
}

/// Adding a decoration at (`row`, `col`) keeps the decorations in order and none after that cell.
proof fn lemma_decoration_step(d: Seq<PlannedTextDecoration>, row: u16, col: u16, kind: TextDecorationKind, color: [u8; 4])
    requires
        decorations_upto(d, row as int, col as int),
    ensures
        decorations_upto(with_decoration(d, row, col, kind, color), row as int, col as int),
{
    lemma_recent_match_in_range(d, 0, row, col, kind, color);
    let after = with_decoration(d, row, col, kind, color);
    match recent_match(d, 0, row, col, kind, color) {
        Some(k) => {
            assert forall|i: int| 0 <= i < d.len() implies (#[trigger] after[i]).row == d[i].row && after[i].col == d[i].col by {}
            assert forall|i: int, j: int| 0 <= i < j < after.len() implies !cell_before(
                (#[trigger] after[j]).row,
                after[j].col,
                (#[trigger] after[i]).row as int,
                after[i].col as int,
            ) by {
                assert(!cell_before(d[j].row, d[j].col, d[i].row as int, d[i].col as int));
            }
            assert forall|i: int| 0 <= i < after.len() implies cell_before((#[trigger] after[i]).row, after[i].col, row as int, col + 1) by {
                assert(cell_before(d[i].row, d[i].col, row as int, col + 1));
            }
        },
        None => {
            assert forall|i: int, j: int| 0 <= i < j < after.len() implies !cell_before(
                (#[trigger] after[j]).row,
                after[j].col,
                (#[trigger] after[i]).row as int,
                after[i].col as int,
            ) by {
                assert(after[i] == d[i]);
                assert(cell_before(d[i].row, d[i].col, row as int, col + 1));
                if j < d.len() {
                    assert(after[j] == d[j]);
                }
            }
            assert forall|i: int| 0 <= i < after.len() implies cell_before((#[trigger] after[i]).row, after[i].col, row as int, col + 1) by {
                if i < d.len() {
                    assert(after[i] == d[i]);
                }
            }
        },
    }
}

/// Adding the decorations of cell (`row`, `col`) keeps them in order and none after that cell.
proof fn lemma_cell_decorations_step(
    d: Seq<PlannedTextDecoration>,
    row: u16,
    col: u16,
    style: Style,
    underline_color: Color,
    default_foreground: [u8; 3],
    ansi: [[u8; 3]; 16],
)
    requires
        decorations_upto(d, row as int, col as int),
    ensures
        decorations_upto(with_cell_decorations(d, row, col, style, underline_color, default_foreground, ansi), row as int, col as int),
{
    if !style.hidden {
        let text_color = decoration_rgba8(Color::Default, style, default_foreground, ansi);
        let color = decoration_rgba8(underline_color, style, default_foreground, ansi);
        if style.underline {
            match style.underline_style {
                UnderlineStyle::Single => lemma_decoration_step(d, row, col, TextDecorationKind::Underline, color),
                UnderlineStyle::Double => {
                    lemma_decoration_step(d, row, col, TextDecorationKind::DoubleUnderlineTop, color);
                    lemma_decoration_step(
                        with_decoration(d, row, col, TextDecorationKind::DoubleUnderlineTop, color),
                        row,
                        col,
                        TextDecorationKind::DoubleUnderlineBottom,
                        color,
                    );
                },
                UnderlineStyle::Curly => lemma_decoration_step(d, row, col, TextDecorationKind::CurlyUnderline, color),
                UnderlineStyle::Dotted => lemma_decoration_step(d, row, col, TextDecorationKind::DottedUnderline, color),
                UnderlineStyle::Dashed => lemma_decoration_step(d, row, col, TextDecorationKind::DashedUnderline, color),
            }
        }
        let d1 = if style.underline {
            with_underline(d, row, col, style, underline_color, default_foreground, ansi)
        } else {
            d
        };
        lemma_decoration_step(d1, row, col, TextDecorationKind::Overline, text_color);
        let d2 = if style.overline { with_decoration(d1, row, col, TextDecorationKind::Overline, text_color) } else { d1 };
        lemma_decoration_step(d2, row, col, TextDecorationKind::Strikethrough, text_color);
    }
}

/// Every glyph lies inside a `rows` x `cols` grid.
pub open spec fn glyphs_in_grid(glyphs: Seq<PlannedGlyphModel>, rows: u16, cols: u16) -> bool {
    forall|i: int| 0 <= i < glyphs.len() ==> (#[trigger] glyphs[i]).row < rows && glyphs[i].col < cols
}

/// The plan so far is ordered, inside the grid, and entirely before cell (`row`, `col`).
pub open spec fn ordered_before(st: PlanState, rows: u16, cols: u16, row: int, col: int) -> bool {
    &&& glyphs_row_major(st.glyphs)
    &&& backgrounds_row_major(st.backgrounds)
    &&& decorations_row_major(st.decorations)
    &&& glyphs_in_grid(st.glyphs, rows, cols)
    &&& forall|i: int|
        0 <= i < st.decorations.len() ==> cell_before((#[trigger] st.decorations[i]).row, st.decorations[i].col, row, col)
    &&& forall|i: int| 0 <= i < st.glyphs.len() ==> cell_before((#[trigger] st.glyphs[i]).row, st.glyphs[i].col, row, col)
    &&& forall|i: int|
        0 <= i < st.backgrounds.len() ==> cell_before((#[trigger] st.backgrounds[i]).row, st.backgrounds[i].col, row, col)
}

/// A fill keeps the start of every earlier fill, and adds at most one fill, at the filled cell.
proof fn lemma_fill_step(backgrounds: Seq<PlannedBackground>, row: u16, col: u16, color: [u8; 4])
    ensures
        ({
            let after = with_background_fill(backgrounds, row, col, color);
            &&& after.len() == backgrounds.len() || after.len() == backgrounds.len() + 1
            &&& forall|i: int| 0 <= i < backgrounds.len() ==> (#[trigger] after[i]).row == backgrounds[i].row
                && after[i].col == backgrounds[i].col
            &&& after.len() == backgrounds.len() + 1 ==> after[backgrounds.len() as int].row == row
                && after[backgrounds.len() as int].col == col
        }),
{
}

/// A cell step keeps the glyphs planned so far, and adds one for the cell when it draws text.
proof fn lemma_cell_step_glyphs(p: RenderPlanner, grid: GridSnapshot, st: PlanState, row: u16, col: u16)
    ensures
        p.cell_step(grid, st, row, col).glyphs.len() == st.glyphs.len() + if draws_glyph(grid, row, col) { 1int } else { 0int },
        forall|i: int| 0 <= i < st.glyphs.len() ==> #[trigger] p.cell_step(grid, st, row, col).glyphs[i] == st.glyphs[i],
        draws_glyph(grid, row, col) ==> p.cell_step(grid, st, row, col).glyphs[st.glyphs.len() as int].row == row
            && p.cell_step(grid, st, row, col).glyphs[st.glyphs.len() as int].col == col,
{
    reveal(RenderPlanner::glyph_at);
}

/// Planning cell (`row`, `col`) of the grid after everything before it keeps
/// the plan ordered, and everything before the next cell.
proof fn lemma_cell_step_ordered(p: RenderPlanner, grid: GridSnapshot, st: PlanState, row: u16, col: u16)
    requires
        ordered_before(st, grid.rows, grid.cols, row as int, col as int),
        row < grid.rows,
        col < grid.cols,
    ensures
        ordered_before(p.cell_step(grid, st, row, col), grid.rows, grid.cols, row as int, col + 1),
{
    let after = p.cell_step(grid, st, row, col);
    lemma_cell_step_glyphs(p, grid, st, row, col);
    assert forall|i: int| 0 <= i < st.decorations.len() implies cell_before(
        (#[trigger] st.decorations[i]).row,
        st.decorations[i].col,
        row as int,
        col + 1,
    ) by {
        assert(cell_before(st.decorations[i].row, st.decorations[i].col, row as int, col as int));
    }
    lemma_cell_decorations_step(
        st.decorations,
        row,
        col,
        cell_style(grid, row, col),
        cell_underline(grid, row, col),
        p.foreground(),
        p.palette(),
    );
    match p.cell_fill(grid, row, col) {
        Some(color) => lemma_fill_step(st.backgrounds, row, col, color),
        None => {},
    }
    let g = after.glyphs;
    let n = st.glyphs.len();
    assert forall|i: int| 0 <= i < g.len() implies cell_before((#[trigger] g[i]).row, g[i].col, row as int, col + 1)
        && g[i].row < grid.rows && g[i].col < grid.cols by {
        if i < n {
            assert(g[i] == st.glyphs[i]);
        }
    }
    assert forall|i: int, j: int| 0 <= i < j < g.len() implies cell_before(
        #[trigger] g[i].row,
        g[i].col,
        (#[trigger] g[j]).row as int,
        g[j].col as int,
    ) by {
        assert(g[i] == st.glyphs[i]);
        if j < n {
            assert(g[j] == st.glyphs[j]);
        }
    }
    let b = after.backgrounds;
    let m = st.backgrounds.len();
    assert forall|i: int| 0 <= i < b.len() implies cell_before((#[trigger] b[i]).row, b[i].col, row as int, col + 1) by {
        if i < m {
            assert(cell_before(st.backgrounds[i].row, st.backgrounds[i].col, row as int, col as int));
        }
    }
    assert forall|i: int, j: int| 0 <= i < j < b.len() implies cell_before(
        #[trigger] b[i].row,
        b[i].col,
        (#[trigger] b[j]).row as int,
        b[j].col as int,
    ) by {
        assert(cell_before(st.backgrounds[i].row, st.backgrounds[i].col, row as int, col as int));
        if j < m {
            assert(cell_before(st.backgrounds[i].row, st.backgrounds[i].col, st.backgrounds[j].row as int, st.backgrounds[j].col as int));
        }
    }
}

proof fn lemma_plan_row_ordered(p: RenderPlanner, grid: GridSnapshot, regions: Seq<DirtyRegion>, st: PlanState, row: int, c1: int)
    requires
        ordered_before(st, grid.rows, grid.cols, row, 0),
        0 <= row < grid.rows,
        0 <= c1 <= grid.cols,
    ensures
        ordered_before(p.plan_row(grid, regions, st, row, c1), grid.rows, grid.cols, row, c1),
    decreases c1,
{
    if c1 > 0 {
        lemma_plan_row_ordered(p, grid, regions, st, row, c1 - 1);
        let before = p.plan_row(grid, regions, st, row, c1 - 1);
        if is_dirty_cell(regions, grid.rows, grid.cols, row, c1 - 1) {
            lemma_cell_step_ordered(p, grid, before, row as u16, (c1 - 1) as u16);
        }
    }
}

proof fn lemma_plan_grid_ordered(p: RenderPlanner, grid: GridSnapshot, regions: Seq<DirtyRegion>, st: PlanState, r1: int)
    requires
        st.glyphs.len() == 0,
        st.backgrounds.len() == 0,
        st.decorations.len() == 0,
        0 <= r1 <= grid.rows,
    ensures
        ordered_before(p.plan_grid(grid, regions, st, r1), grid.rows, grid.cols, r1, 0),
    decreases r1,
{
    if r1 > 0 {
        lemma_plan_grid_ordered(p, grid, regions, st, r1 - 1);
        let before = p.plan_grid(grid, regions, st, r1 - 1);
        lemma_plan_row_ordered(p, grid, regions, before, r1 - 1, grid.cols as int);
    }
}

/// Plans are in row-major order: glyphs, and background fills by their first
/// cell, come strictly left to right within a row and row after row, so no
/// cell is planned twice, whatever the order or overlap of the dirty regions;
/// text decorations never start before an earlier one.
pub proof fn lemma_plan_is_row_major(
    p: RenderPlanner,
    grid: GridSnapshot,
    cursor: CursorSnapshot,
    regions: Seq<DirtyRegion>,
    before: GlyphAtlasModel,
    plan: RenderPlan,
    after: GlyphAtlasModel,
)
    requires
        p.is_frame_plan(grid, cursor, regions, before, plan, after),
    ensures
        glyphs_row_major(plan.glyphs@.map_values(|g: PlannedGlyph| g@)),
        backgrounds_row_major(plan.backgrounds@),
        decorations_row_major(plan.decorations@),
{
    lemma_plan_grid_ordered(
        p,
        grid,
        regions,
        PlanState { backgrounds: Seq::empty(), decorations: Seq::empty(), glyphs: Seq::empty(), atlas: before },
        grid.rows as int,
    );
}

/// Planning draws glyphs only inside the grid: whatever the dirty regions, every
/// planned glyph's row and column lie within the snapshot's rows and columns.
pub proof fn lemma_planned_glyphs_in_grid(
    p: RenderPlanner,
    grid: GridSnapshot,
    cursor: CursorSnapshot,
    regions: Seq<DirtyRegion>,
    before: GlyphAtlasModel,
    plan: RenderPlan,
    after: GlyphAtlasModel,
)
    requires
        p.is_frame_plan(grid, cursor, regions, before, plan, after),
    ensures
        glyphs_in_grid(plan.glyphs@.map_values(|g: PlannedGlyph| g@), grid.rows, grid.cols),
{
    lemma_plan_grid_ordered(
        p,
        grid,
        regions,
        PlanState { backgrounds: Seq::empty(), decorations: Seq::empty(), glyphs: Seq::empty(), atlas: before },
        grid.rows as int,
    );
}

/// Some background fill on row `row` spans column `col` with `color`.
pub open spec fn fill_covers(backgrounds: Seq<PlannedBackground>, row: u16, col: u16, color: [u8; 4]) -> bool {
    exists|i: int|
        0 <= i < backgrounds.len() && (#[trigger] backgrounds[i]).row == row && backgrounds[i].col <= col < backgrounds[i].col
            + backgrounds[i].cols && backgrounds[i].color_rgba8 == color
}

/// Filling a cell keeps every cell covered that was covered, and covers the filled cell.
proof fn lemma_fill_covers(backgrounds: Seq<PlannedBackground>, row: u16, col: u16, color: [u8; 4])
    requires
        col < u16::MAX,
    ensures
        fill_covers(with_background_fill(backgrounds, row, col, color), row, col, color),
        forall|r: u16, c: u16, k: [u8; 4]|
            fill_covers(backgrounds, r, c, k) ==> #[trigger] fill_covers(with_background_fill(backgrounds, row, col, color), r, c, k),
{
    let after = with_background_fill(backgrounds, row, col, color);
    let n = backgrounds.len();
    assert forall|r: u16, c: u16, k: [u8; 4]|
        fill_covers(backgrounds, r, c, k) implies #[trigger] fill_covers(after, r, c, k) by {
        let i = choose|i: int|
            0 <= i < backgrounds.len() && (#[trigger] backgrounds[i]).row == r && backgrounds[i].col <= c < backgrounds[i].col
                + backgrounds[i].cols && backgrounds[i].color_rgba8 == k;
        assert(after[i].row == r && after[i].col <= c < after[i].col + after[i].cols && after[i].color_rgba8 == k);
    }
    if n > 0 && backgrounds[n - 1].row == row && sat_add16(backgrounds[n - 1].col, backgrounds[n - 1].cols) == col
        && backgrounds[n - 1].color_rgba8 == color {
        assert(after[n - 1].row == row && after[n - 1].col <= col < after[n - 1].col + after[n - 1].cols);
    } else {
        assert(after[n as int].row == row && after[n as int].col <= col < after[n as int].col + after[n as int].cols);
    }
}

/// Every dirty cell before (`row`, `col`) that has a fill is covered by a fill of its color.
pub open spec fn fills_before(
    p: RenderPlanner,
    grid: GridSnapshot,
    regions: Seq<DirtyRegion>,
    backgrounds: Seq<PlannedBackground>,
    row: int,
    col: int,
) -> bool {
    forall|r: u16, c: u16|
        cell_before(r, c, row, col) && r < grid.rows && c < grid.cols && is_dirty_cell(regions, grid.rows, grid.cols, r as int, c as int)
            && #[trigger] p.cell_fill(grid, r, c) is Some ==> fill_covers(backgrounds, r, c, p.cell_fill(grid, r, c)->0)
}

proof fn lemma_plan_row_fills(p: RenderPlanner, grid: GridSnapshot, regions: Seq<DirtyRegion>, st: PlanState, row: int, c1: int)
    requires
        fills_before(p, grid, regions, st.backgrounds, row, 0),
        0 <= row < grid.rows,
        0 <= c1 <= grid.cols,
    ensures
        fills_before(p, grid, regions, p.plan_row(grid, regions, st, row, c1).backgrounds, row, c1),
    decreases c1,
{
    if c1 > 0 {
        lemma_plan_row_fills(p, grid, regions, st, row, c1 - 1);
        let before = p.plan_row(grid, regions, st, row, c1 - 1);
        let after = p.plan_row(grid, regions, st, row, c1);
        let col = (c1 - 1) as u16;
        if is_dirty_cell(regions, grid.rows, grid.cols, row, c1 - 1) {
            match p.cell_fill(grid, row as u16, col) {
                Some(color) => lemma_fill_covers(before.backgrounds, row as u16, col, color),
                None => {},
            }
        }
        assert forall|r: u16, c: u16|
            cell_before(r, c, row, c1) && r < grid.rows && c < grid.cols && is_dirty_cell(regions, grid.rows, grid.cols, r as int, c as int)
                && #[trigger] p.cell_fill(grid, r, c) is Some implies fill_covers(after.backgrounds, r, c, p.cell_fill(grid, r, c)->0) by {
            if cell_before(r, c, row, c1 - 1) {
                assert(fill_covers(before.backgrounds, r, c, p.cell_fill(grid, r, c)->0));
            }
        }
    }
}

proof fn lemma_plan_grid_fills(p: RenderPlanner, grid: GridSnapshot, regions: Seq<DirtyRegion>, st: PlanState, r1: int)
    requires
        0 <= r1 <= grid.rows,
    ensures
        fills_before(p, grid, regions, p.plan_grid(grid, regions, st, r1).backgrounds, r1, 0),
    decreases r1,
{
    if r1 > 0 {
        lemma_plan_grid_fills(p, grid, regions, st, r1 - 1);
        let before = p.plan_grid(grid, regions, st, r1 - 1);
        lemma_plan_row_fills(p, grid, regions, before, r1 - 1, grid.cols as int);
        let after = p.plan_grid(grid, regions, st, r1);
        assert forall|r: u16, c: u16|
            cell_before(r, c, r1, 0) && r < grid.rows && c < grid.cols && is_dirty_cell(regions, grid.rows, grid.cols, r as int, c as int)
                && #[trigger] p.cell_fill(grid, r, c) is Some implies fill_covers(after.backgrounds, r, c, p.cell_fill(grid, r, c)->0) by {
            assert(cell_before(r, c, r1 - 1, grid.cols as int));
        }
    }
}

/// Every dirty cell that has a fill (the selection color when selected, else its
/// style's background) is covered in the plan by a background fill of that color;
/// in particular every selected dirty cell, both ends of the selection included,
/// is filled with the selection color.
pub proof fn lemma_plan_fills_dirty_cells(
    p: RenderPlanner,
    grid: GridSnapshot,
    cursor: CursorSnapshot,
    regions: Seq<DirtyRegion>,
    before: GlyphAtlasModel,
    plan: RenderPlan,
    after: GlyphAtlasModel,
    row: u16,
    col: u16,
)
    requires
        p.is_frame_plan(grid, cursor, regions, before, plan, after),
        row < grid.rows,
        col < grid.cols,
        is_dirty_cell(regions, grid.rows, grid.cols, row as int, col as int),
    ensures
        p.cell_fill(grid, row, col) matches Some(color) ==> fill_covers(plan.backgrounds@, row, col, color),
        selected(grid.selection, row, col) ==> fill_covers(plan.backgrounds@, row, col, p.selection_background()),
{
    lemma_plan_grid_fills(
        p,
        grid,
        regions,
        PlanState { backgrounds: Seq::empty(), decorations: Seq::empty(), glyphs: Seq::empty(), atlas: before },
        grid.rows as int,
    );
    if p.cell_fill(grid, row, col) is Some {
        assert(cell_before(row, col, grid.rows as int, 0));
    }
}

} // verus!
