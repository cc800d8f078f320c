use gromaq::cell::Style;
use gromaq::grid::{CellSnapshot, CursorSnapshot, DirtyRegion, GridSnapshot};
use gromaq::renderer::{
    GlyphAtlas, GlyphAtlasConfig, GlyphBitmap, GlyphEntry, GlyphKey, PreparedSurfaceGlyphFrame,
    PreparedSurfaceGlyphFrameConfig, RenderPlan, RenderPlanner, SurfaceFrameError,
};

fn text_grid(rows: u16, cols: u16, text: &str) -> GridSnapshot {
    let mut cells = Vec::new();
    for index in 0..(rows as usize * cols as usize) {
        let text = text.chars().nth(index).map(|c| c.to_string()).unwrap_or_default();
        cells.push(CellSnapshot { text, style: Style::default(), is_wide_leading: false, is_wide_trailing: false });
    }
    GridSnapshot { rows, cols, cells, underline_colors: Vec::new(), selection: None }
}

fn plan_for(text: &str, cols: u16) -> RenderPlan {
    let grid = text_grid(1, cols, text);
    let mut atlas = GlyphAtlas::new(GlyphAtlasConfig::new(8).unwrap());
    let mut planner = RenderPlanner::new(14);
    let dirty = [DirtyRegion { row: 0, col: 0, rows: 1, cols }];
    planner.plan_frame(&grid, CursorSnapshot::default(), &dirty, &mut atlas).unwrap()
}

fn config() -> PreparedSurfaceGlyphFrameConfig {
    PreparedSurfaceGlyphFrameConfig {
        cell_width_px: 8,
        line_height_px: 16,
        cursor_color_rgba8: [229, 229, 229, 255],
        surface_padding_px: 2,
        cell_spacing_px: 1,
    }
}

#[test]
fn prepared_frame_packs_glyphs_and_spaces_quads() {
    let plan = plan_for("AB", 3);
    let bitmaps: Vec<GlyphBitmap> = plan
        .glyphs
        .iter()
        .map(|glyph| GlyphBitmap::solid_rgba8(glyph.atlas_entry, 8, 16, [255, 255, 255, 255]))
        .collect();

    let frame = PreparedSurfaceGlyphFrame::from_render_plan(&plan, &bitmaps, config()).unwrap();

    assert_eq!((frame.width(), frame.height()), (3 * 8 + 2 + 4, 16 + 4));
    assert_eq!((frame.atlas().width, frame.atlas().height, frame.atlas().occupied_slots), (16, 16, 2));
    let quads = &frame.batch().quads;
    assert_eq!(quads.len(), 2);
    assert_eq!((quads[0].x0, quads[0].x1, quads[0].y0, quads[0].y1), (2, 10, 2, 18));
    assert_eq!((quads[1].x0, quads[1].x1, quads[1].y0, quads[1].y1), (11, 19, 2, 18));
    assert_eq!(frame.batch().indices.len(), 12);
}

#[test]
fn prepared_frame_requires_every_planned_bitmap() {
    let plan = plan_for("AB", 2);
    let only_first = vec![GlyphBitmap::solid_rgba8(plan.glyphs[0].atlas_entry, 8, 16, [1, 1, 1, 255])];
    let missing = plan.glyphs[1].atlas_entry;

    let error = PreparedSurfaceGlyphFrame::from_render_plan(&plan, &only_first, config()).unwrap_err();

    assert_eq!(
        error,
        SurfaceFrameError::InvalidFrame(format!(
            "missing rasterized bitmap for atlas slot {} generation {}",
            missing.slot, missing.generation
        ))
    );
    assert_eq!(
        PreparedSurfaceGlyphFrame::from_render_plan(&plan, &[], config()).unwrap_err(),
        SurfaceFrameError::InvalidFrame("surface glyph frame requires rasterized glyph bitmaps".to_owned())
    );
}

#[test]
fn prepared_frame_without_glyphs_uses_a_transparent_atlas() {
    let plan = plan_for("  ", 2);
    assert!(plan.glyphs.is_empty());

    let frame = PreparedSurfaceGlyphFrame::from_render_plan(&plan, &[], config()).unwrap();

    assert_eq!((frame.atlas().width, frame.atlas().height), (8, 16));
    assert!(frame.atlas().rgba.iter().all(|byte| *byte == 0));
    assert!(frame.batch().quads.is_empty());
    let zero_cells = PreparedSurfaceGlyphFrameConfig { cell_width_px: 0, ..config() };
    assert_eq!(
        PreparedSurfaceGlyphFrame::from_render_plan(&plan, &[], zero_cells).unwrap_err(),
        SurfaceFrameError::InvalidFrame("surface frame cell dimensions must be non-zero".to_owned())
    );
}

#[test]
fn prepared_frame_reports_padding_errors() {
    let plan = plan_for("A", 1);
    let mut glyph = GlyphBitmap::solid_rgba8(plan.glyphs[0].atlas_entry, 2, 2, [9, 9, 9, 255]);
    glyph.rgba.truncate(3);

    let error = PreparedSurfaceGlyphFrame::from_render_plan(&plan, &[glyph], config()).unwrap_err();

    assert_eq!(
        error,
        SurfaceFrameError::InvalidFrame("glyph slot 0 expected 16 rgba bytes before padding".to_owned())
    );
}

#[test]
fn glyph_keys_for_the_same_text_match() {
    let a = GlyphKey::for_text("A", 'A', Style::default(), 14);
    let b = GlyphKey::new('A', Style::default(), 14);
    assert_eq!(a, b);
    assert_eq!(GlyphEntry { slot: 1, generation: 2 }, GlyphEntry { slot: 1, generation: 2 });
}

