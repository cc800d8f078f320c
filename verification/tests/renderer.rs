use gromaq::cell::Style;
use gromaq::error::GromaqError;
use gromaq::grid::{CellSnapshot, CursorSnapshot, DirtyRegion, GridSnapshot};
use gromaq::native_gpu::draw_checks::{validate_glyph_draw, validate_textured_quad_draw, GlyphDrawLayout};
use gromaq::native_gpu::{GpuBootstrapError, UploadPattern, UploadPatternLayout};
use gromaq::renderer::image::rgba::checked_rgba_row_offset;
use gromaq::renderer::plan::clipping::{clipped_dirty_region, ClippedDirtyRegion};
use gromaq::renderer::prepared_frame::{
    atlas_columns_for_glyphs, checked_surface_frame_pixel_dimension, transparent_glyph_atlas,
};
use gromaq::renderer::preview::{atlas_pixel, is_grayscale, multiply_u8};
use gromaq::renderer::quads::{checked_glyph_quad_base_index, checked_glyph_quad_index_capacity};
use gromaq::renderer::surface_frame::{
    surface_glyph_vertex_byte_capacity, validate_surface_glyph_buffers, validate_surface_glyph_frame,
    SurfaceGlyphAtlasLayout, SurfaceGlyphBufferLayout,
};
use gromaq::renderer::{
    FrameDecision, FrameScheduler, GlyphAtlas, GlyphAtlasConfig, GlyphAtlasImage, GlyphBitmap, GlyphEntry, GlyphKey,
    GlyphImageError, GlyphQuad, GlyphQuadBatch, GlyphQuadConfig, GlyphQuadError, GlyphQuadPlanner, GpuRenderer, RenderPlanner,
    RenderReason, RendererConfig, SurfaceFrameError, WgpuRenderer,
};

fn empty_grid_snapshot(rows: u16, cols: u16) -> GridSnapshot {
    GridSnapshot { rows, cols, cells: Vec::new(), underline_colors: Vec::new(), selection: None }
}

fn text_grid(rows: u16, cols: u16, text: &str) -> GridSnapshot {
    let mut cells = Vec::new();
    for index in 0..(rows as usize * cols as usize) {
        let text = text.chars().nth(index).map(|c| c.to_string()).unwrap_or_default();
        cells.push(CellSnapshot { text, style: Style::default(), is_wide_leading: false, is_wide_trailing: false });
    }
    GridSnapshot { rows, cols, cells, underline_colors: Vec::new(), selection: None }
}

fn bitmap(slot: u32) -> GlyphBitmap {
    GlyphBitmap {
        entry: GlyphEntry { slot, generation: 0 },
        origin_x: 0,
        origin_y: 0,
        width: 1,
        height: 1,
        rgba: Vec::new(),
    }
}

fn invalid(message: &str) -> SurfaceFrameError {
    SurfaceFrameError::InvalidFrame(message.to_owned())
}

#[test]
fn renderer_clipped_dirty_region_uses_widened_bounds_at_u16_edges() {
    let grid = empty_grid_snapshot(u16::MAX, u16::MAX);
    let region = DirtyRegion { row: u16::MAX - 1, col: u16::MAX - 2, rows: 8, cols: 9 };

    assert_eq!(
        clipped_dirty_region(&region, &grid),
        Some(ClippedDirtyRegion {
            row_start: u16::MAX - 1,
            row_end: u16::MAX,
            col_start: u16::MAX - 2,
            col_end: u16::MAX,
        })
    );
}

#[test]
fn renderer_clipped_dirty_region_rejects_regions_outside_grid() {
    let grid = empty_grid_snapshot(10, 10);
    let region = DirtyRegion { row: 12, col: 0, rows: 1, cols: 1 };

    assert_eq!(clipped_dirty_region(&region, &grid), None);
}

#[test]
fn clipping_clipped_dirty_region_uses_widened_bounds_at_u16_edges() {
    let grid = empty_grid_snapshot(u16::MAX, u16::MAX);
    let region = DirtyRegion { row: u16::MAX - 1, col: u16::MAX - 2, rows: 8, cols: 9 };

    assert_eq!(
        clipped_dirty_region(&region, &grid),
        Some(ClippedDirtyRegion {
            row_start: u16::MAX - 1,
            row_end: u16::MAX,
            col_start: u16::MAX - 2,
            col_end: u16::MAX,
        })
    );
}

#[test]
fn clipping_clipped_dirty_region_rejects_regions_outside_grid() {
    let grid = empty_grid_snapshot(10, 10);
    let region = DirtyRegion { row: 12, col: 0, rows: 1, cols: 1 };

    assert_eq!(clipped_dirty_region(&region, &grid), None);
}

fn plan_outside_grid() -> (usize, usize) {
    let grid = text_grid(2, 4, "AB");
    let mut atlas = GlyphAtlas::new(GlyphAtlasConfig::new(8).unwrap());
    let mut planner = RenderPlanner::new(14);
    let dirty = [DirtyRegion { row: 4, col: 0, rows: 1, cols: 1 }];

    let plan = planner.plan_frame(&grid, CursorSnapshot::default(), &dirty, &mut atlas).unwrap();

    (plan.glyphs.len(), atlas.metrics().entries)
}

#[test]
fn renderer_render_planner_ignores_dirty_regions_outside_grid() {
    let (glyphs, entries) = plan_outside_grid();
    assert_eq!(glyphs, 0);
    assert_eq!(entries, 0);
}

#[test]
fn tests_render_planner_ignores_dirty_regions_outside_grid() {
    let (glyphs, entries) = plan_outside_grid();
    assert_eq!(glyphs, 0);
    assert_eq!(entries, 0);
}

#[test]
fn render_planner_plans_text_cells_and_reuses_atlas_entries() {
    let grid = text_grid(1, 4, "ABA ");
    let mut atlas = GlyphAtlas::new(GlyphAtlasConfig::new(8).unwrap());
    let mut planner = RenderPlanner::new(14);
    let dirty = [DirtyRegion { row: 0, col: 0, rows: 1, cols: 4 }];

    let plan = planner.plan_frame(&grid, CursorSnapshot::default(), &dirty, &mut atlas).unwrap();

    let columns: Vec<u16> = plan.glyphs.iter().map(|glyph| glyph.col).collect();
    assert_eq!(columns, vec![0, 1, 2]);
    assert_eq!(plan.glyphs[0].atlas_entry, plan.glyphs[2].atlas_entry);
    assert_ne!(plan.glyphs[0].atlas_entry, plan.glyphs[1].atlas_entry);
    let metrics = atlas.metrics();
    assert_eq!((metrics.hits, metrics.misses, metrics.entries), (1, 2, 2));
    assert_eq!(plan.clear_regions, dirty.to_vec());
}

#[test]
fn glyph_quad_base_index_accepts_last_representable_quad() {
    let last_valid_quad = usize::try_from(u32::MAX / 4).unwrap();

    assert_eq!(checked_glyph_quad_base_index(last_valid_quad).unwrap(), u32::MAX - 3);
}

#[test]
fn glyph_quad_base_index_rejects_overflowing_quad_count() {
    let first_invalid_quad = usize::try_from(u32::MAX / 4).unwrap() + 1;

    let error = checked_glyph_quad_base_index(first_invalid_quad).unwrap_err();

    assert_eq!(error, GlyphQuadError::IndexCountTooLarge);
}

#[test]
fn glyph_quad_index_capacity_uses_checked_multiplication() {
    assert_eq!(checked_glyph_quad_index_capacity(7).unwrap(), 42);

    let error = checked_glyph_quad_index_capacity((usize::MAX / 6) + 1).unwrap_err();

    assert_eq!(error, GlyphQuadError::IndexCountTooLarge);
}

#[test]
fn glyph_quads_cover_cells_and_sample_atlas_slots() {
    let grid = text_grid(1, 3, "AB");
    let mut atlas = GlyphAtlas::new(GlyphAtlasConfig::new(4).unwrap());
    let mut planner = RenderPlanner::new(14);
    let dirty = [DirtyRegion { row: 0, col: 0, rows: 1, cols: 3 }];
    let plan = planner.plan_frame(&grid, CursorSnapshot::default(), &dirty, &mut atlas).unwrap();
    let config = GlyphQuadConfig {
        cell_width_px: 8,
        cell_height_px: 16,
        atlas_slot_width_px: 8,
        atlas_slot_height_px: 16,
        atlas_columns: 2,
        atlas_width_px: 16,
        atlas_height_px: 32,
    };

    let batch = GlyphQuadPlanner::new(config).plan(&plan).unwrap();

    assert_eq!(batch.quads.len(), 2);
    let second = &batch.quads[1];
    assert_eq!((second.x0, second.y0, second.x1, second.y1), (8, 0, 16, 16));
    let slot = second.atlas_entry.slot;
    assert_eq!(second.atlas_x0, (slot % 2) * 8);
    assert_eq!(second.atlas_y0, (slot / 2) * 16);
    assert_eq!(batch.indices, vec![0, 1, 2, 0, 2, 3, 4, 5, 6, 4, 6, 7]);

    let zero = GlyphQuadConfig { atlas_columns: 0, ..config };
    assert_eq!(GlyphQuadPlanner::new(zero).plan(&plan).unwrap_err(), GlyphQuadError::ZeroDimension);
    let small = GlyphQuadConfig { atlas_height_px: 16, atlas_columns: 1, ..config };
    assert!(matches!(GlyphQuadPlanner::new(small).plan(&plan), Err(GlyphQuadError::SlotOutsideAtlas { .. })));
    assert_eq!(
        GlyphQuadError::SlotOutsideAtlas { slot: 3 }.message(),
        "glyph atlas slot 3 is outside the configured atlas image"
    );
}

#[test]
fn renderer_atlas_columns_for_glyphs_uses_widened_slot_math() {
    let glyphs = [bitmap(0), bitmap(3)];

    assert_eq!(atlas_columns_for_glyphs(&glyphs), 2);
}

#[test]
fn renderer_atlas_columns_for_glyphs_handles_maximum_slot_without_overflow() {
    let glyphs = [bitmap(u32::MAX)];

    assert_eq!(atlas_columns_for_glyphs(&glyphs), 65_536);
}

#[test]
fn prepared_frame_atlas_atlas_columns_for_glyphs_uses_widened_slot_math() {
    let glyphs = [bitmap(0), bitmap(3)];

    assert_eq!(atlas_columns_for_glyphs(&glyphs), 2);
}

#[test]
fn prepared_frame_atlas_atlas_columns_for_glyphs_handles_maximum_slot_without_overflow() {
    let glyphs = [bitmap(u32::MAX)];

    assert_eq!(atlas_columns_for_glyphs(&glyphs), 65_536);
}

#[test]
fn atlas_columns_are_the_smallest_square_grid() {
    assert_eq!(atlas_columns_for_glyphs(&[]), 1);
    assert_eq!(atlas_columns_for_glyphs(&[bitmap(4)]), 3);
    assert_eq!(atlas_columns_for_glyphs(&[bitmap(8), bitmap(2)]), 3);
    assert_eq!(atlas_columns_for_glyphs(&[bitmap(9)]), 4);
}

#[test]
fn renderer_rgba_row_offset_uses_checked_multiplication() {
    assert_eq!(checked_rgba_row_offset(3, 8).unwrap(), 24);

    let error = checked_rgba_row_offset((usize::MAX / 8) + 1, 8).unwrap_err();

    assert_eq!(error.message(), "rgba row offset is too large");
}

#[test]
fn rgba_rgba_row_offset_uses_checked_multiplication() {
    assert_eq!(checked_rgba_row_offset(3, 8).unwrap(), 24);

    let error = checked_rgba_row_offset((usize::MAX / 8) + 1, 8).unwrap_err();

    assert_eq!(error, GlyphImageError::RgbaRowOffsetTooLarge);
}

fn eviction_error() -> GromaqError {
    let mut atlas = GlyphAtlas::new(GlyphAtlasConfig::new(1).unwrap());
    atlas.evict_lru().unwrap_err()
}

#[test]
fn renderer_glyph_atlas_eviction_reports_missing_lru_key_invariant() {
    assert_eq!(eviction_error(), GromaqError::GlyphAtlasInvariant { reason: "glyph atlas full with no LRU key" });
}

#[test]
fn cache_glyph_atlas_eviction_reports_missing_lru_key_invariant() {
    assert_eq!(eviction_error(), GromaqError::GlyphAtlasInvariant { reason: "glyph atlas full with no LRU key" });
}

#[test]
fn frame_scheduler_dropped_frame_metrics_saturate() {
    let mut scheduler = FrameScheduler::new(1).unwrap();
    scheduler.metrics.dropped_frames = u64::MAX - 1;
    let start = 0;
    scheduler.record_presented(start);

    scheduler.record_presented(start + 4_000_000_000);

    assert_eq!(scheduler.metrics().dropped_frames, u64::MAX);
}

#[test]
fn frame_scheduler_presented_frame_metrics_saturate() {
    let mut scheduler = FrameScheduler::new(144).unwrap();
    scheduler.metrics.frames_presented = u64::MAX;

    scheduler.record_presented(1_000);

    assert_eq!(scheduler.metrics().frames_presented, u64::MAX);
}

#[test]
fn frame_scheduler_paces_dirty_frames() {
    assert_eq!(
        FrameScheduler::new(0).unwrap_err(),
        GromaqError::InvalidTargetFps { minimum: 1, maximum: 240, actual: 0 }
    );
    let mut scheduler = FrameScheduler::new(100).unwrap();
    assert_eq!(scheduler.target_interval(), 10_000_000);
    assert_eq!(scheduler.decide(0, false), FrameDecision::idle());
    assert_eq!(scheduler.decide(0, true), FrameDecision::render(RenderReason::FirstDirtyFrame));
    scheduler.record_presented(1_000_000);
    assert_eq!(
        scheduler.decide(4_000_000, true),
        FrameDecision { should_render: false, wait_for: Some(7_000_000), reason: RenderReason::FramePaced }
    );
    assert_eq!(scheduler.decide(11_000_000, true), FrameDecision::render(RenderReason::Dirty));
    scheduler.record_presented(41_000_000);
    assert_eq!(scheduler.metrics().dropped_frames, 3);
    assert_eq!(scheduler.metrics().frames_presented, 2);
}

#[test]
fn surface_glyph_buffer_validation_reports_checked_sizes() {
    let vertex_bytes = [1_u8, 2, 3, 4];
    let index_bytes = [5_u8, 6, 7, 8];

    let layout = validate_surface_glyph_buffers(&vertex_bytes, &index_bytes, 1).unwrap();

    assert_eq!(layout, SurfaceGlyphBufferLayout { vertex_buffer_size: 4, index_buffer_size: 4, index_count: 1 });
}

#[test]
fn surface_glyph_vertex_byte_capacity_uses_checked_multiplication() {
    assert_eq!(surface_glyph_vertex_byte_capacity(2).unwrap(), 128);

    let error = surface_glyph_vertex_byte_capacity((usize::MAX / 64) + 1).unwrap_err();

    assert_eq!(error, invalid("surface glyph vertex bytes are too large"));
}

#[test]
fn surface_glyph_buffer_validation_rejects_empty_buffers() {
    let vertex_bytes = [];
    let index_bytes = [1_u8, 2, 3, 4];

    let error = validate_surface_glyph_buffers(&vertex_bytes, &index_bytes, 1).unwrap_err();

    assert_eq!(error, invalid("surface glyph draw buffers must be non-empty"));
}

#[test]
fn surface_glyph_buffer_validation_rejects_oversized_index_count() {
    let vertex_bytes = [1_u8, 2, 3, 4];
    let index_bytes = [5_u8, 6, 7, 8];

    let error = validate_surface_glyph_buffers(&vertex_bytes, &index_bytes, usize::MAX).unwrap_err();

    assert_eq!(error, invalid("surface glyph index count is too large"));
}

#[test]
fn surface_glyph_frame_validation_checks_atlas_bytes() {
    let atlas = GlyphAtlasImage { width: 1, height: 1, rgba: vec![0; 3], occupied_slots: 1 };
    let batch = GlyphQuadBatch { quads: Vec::new(), indices: Vec::new() };
    assert_eq!(
        validate_surface_glyph_frame(&atlas, &batch, 8, 8).unwrap_err(),
        invalid("surface glyph atlas has 3 bytes, expected 4")
    );
    assert_eq!(
        validate_surface_glyph_frame(&atlas, &batch, 0, 8).unwrap_err(),
        invalid("surface glyph frame dimensions must be non-zero")
    );
}

#[test]
fn surface_frame_dimensions_include_spacing_and_padding() {
    assert_eq!(checked_surface_frame_pixel_dimension("width", 80, 8, 4, 1).unwrap(), 80 * 8 + 79 + 8);
    assert_eq!(
        checked_surface_frame_pixel_dimension("surface glyph frame width", 2, u32::MAX, 0, 0).unwrap_err(),
        invalid("surface glyph frame width is too large to represent")
    );
    let atlas = transparent_glyph_atlas(2, 3).unwrap();
    assert_eq!((atlas.width, atlas.height, atlas.rgba.len(), atlas.occupied_slots), (2, 3, 24, 0));
    assert!(atlas.rgba.iter().all(|byte| *byte == 0));
    assert_eq!(transparent_glyph_atlas(u32::MAX, 2).unwrap_err(), invalid("transparent glyph atlas is too large"));
}

#[test]
fn preview_tinting_helpers() {
    assert!(is_grayscale([100, 104, 100, 255]));
    assert!(!is_grayscale([100, 110, 100, 255]));
    assert_eq!(multiply_u8(255, 255), 255);
    assert_eq!(multiply_u8(128, 255), 128);
    assert_eq!(multiply_u8(0, 200), 0);
}

#[test]
fn renderer_keeps_the_last_plan() {
    let mut renderer = WgpuRenderer::new(RendererConfig::default()).unwrap();
    assert!(renderer.last_plan().is_none());
    let grid = text_grid(1, 2, "Hi");
    renderer.render_frame(&grid, CursorSnapshot::default(), &[]).unwrap();
    assert_eq!(renderer.last_plan().unwrap().glyphs.len(), 0);
    let full = RendererConfig { dirty_regions: false, ..RendererConfig::default() };
    renderer.reconfigure(full);
    assert!(renderer.last_plan().is_none());
    renderer.render_frame(&grid, CursorSnapshot::default(), &[]).unwrap();
    assert_eq!(renderer.last_plan().unwrap().glyphs.len(), 2);
    assert_eq!(renderer.glyph_atlas_metrics().entries, 2);
}

#[test]
fn atlas_pixel_reads_row_major_rgba() {
    let atlas = GlyphAtlasImage {
        width: 2,
        height: 2,
        rgba: (0u8..16).collect(),
        occupied_slots: 1,
    };
    assert_eq!(atlas_pixel(&atlas, 0, 0).unwrap(), [0, 1, 2, 3]);
    assert_eq!(atlas_pixel(&atlas, 1, 0).unwrap(), [4, 5, 6, 7]);
    assert_eq!(atlas_pixel(&atlas, 0, 1).unwrap(), [8, 9, 10, 11]);
    assert_eq!(atlas_pixel(&atlas, 1, 1).unwrap(), [12, 13, 14, 15]);
}

fn one_quad_batch() -> GlyphQuadBatch {
    let quad = GlyphQuad {
        text: "A".to_owned(),
        ch: 'A',
        atlas_entry: GlyphEntry { slot: 0, generation: 0 },
        x0: 0,
        y0: 0,
        x1: 1,
        y1: 1,
        atlas_x0: 0,
        atlas_y0: 0,
        atlas_x1: 1,
        atlas_y1: 1,
    };
    GlyphQuadBatch { quads: vec![quad], indices: vec![0, 1, 2, 0, 2, 3] }
}

#[test]
fn surface_glyph_frame_validation_computes_checked_atlas_layout() {
    let atlas = GlyphAtlasImage { width: 2, height: 2, rgba: vec![255; 16], occupied_slots: 1 };
    let batch = one_quad_batch();

    let layout = validate_surface_glyph_frame(&atlas, &batch, 16, 16).unwrap();

    assert_eq!(layout, SurfaceGlyphAtlasLayout { row_bytes: 8, expected_len: 16 });
}

#[test]
fn surface_glyph_frame_validation_rejects_overflowing_atlas_row_size() {
    let atlas = GlyphAtlasImage { width: u32::MAX, height: 1, rgba: Vec::new(), occupied_slots: 0 };
    let batch = one_quad_batch();

    let error = validate_surface_glyph_frame(&atlas, &batch, 16, 16).unwrap_err();

    assert_eq!(error, SurfaceFrameError::InvalidFrame("surface glyph atlas row size is too large".to_owned()));
}

#[test]
fn packed_atlas_counts_each_occupied_slot_once() {
    let solid = |slot: u32, rgba: [u8; 4]| GlyphBitmap {
        entry: GlyphEntry { slot, generation: 0 },
        origin_x: 0,
        origin_y: 0,
        width: 1,
        height: 1,
        rgba: rgba.to_vec(),
    };
    let glyphs = [solid(0, [1, 2, 3, 4]), solid(0, [5, 6, 7, 8]), solid(2, [9, 9, 9, 9])];

    let image = GlyphAtlasImage::pack_rgba8(1, 1, 2, &glyphs).unwrap();

    assert_eq!(image.occupied_slots, 2);
    assert_eq!((image.width, image.height), (2, 2));
    assert_eq!(image.rgba, vec![5, 6, 7, 8, 0, 0, 0, 0, 9, 9, 9, 9, 0, 0, 0, 0]);
}

#[test]
fn render_plan_is_row_major_for_unsorted_overlapping_regions() {
    let grid = text_grid(2, 3, "abcdef");
    let mut atlas = GlyphAtlas::new(GlyphAtlasConfig::new(8).unwrap());
    let mut planner = RenderPlanner::new(14);
    let dirty = [
        DirtyRegion { row: 1, col: 0, rows: 1, cols: 3 },
        DirtyRegion { row: 0, col: 1, rows: 2, cols: 2 },
        DirtyRegion { row: 0, col: 2, rows: 1, cols: 1 },
    ];

    let plan = planner.plan_frame(&grid, CursorSnapshot::default(), &dirty, &mut atlas).unwrap();

    let cells: Vec<(u16, u16)> = plan.glyphs.iter().map(|glyph| (glyph.row, glyph.col)).collect();
    assert_eq!(cells, vec![(0, 1), (0, 2), (1, 0), (1, 1), (1, 2)]);
    let text: Vec<&str> = plan.glyphs.iter().map(|glyph| glyph.text.as_str()).collect();
    assert_eq!(text, vec!["b", "c", "d", "e", "f"]);
    assert_eq!(atlas.metrics().misses, 5);
    assert_eq!(plan.clear_regions, dirty.to_vec());
}

#[test]
fn atlas_lookup_sequence_counts_hits_misses_and_evictions() {
    let mut atlas = GlyphAtlas::new(GlyphAtlasConfig::new(2).unwrap());
    let key = |ch: char| GlyphKey::new(ch, Style::default(), 14);
    let mut entries = Vec::new();
    for ch in ['a', 'b', 'a', 'c', 'b', 'a'] {
        entries.push(atlas.lookup_or_insert(key(ch)).unwrap());
    }

    let metrics = atlas.metrics();
    assert_eq!(metrics.hits + metrics.misses, 6);
    assert_eq!((metrics.hits, metrics.misses, metrics.evictions, metrics.entries), (1, 5, 3, 2));
    assert_eq!(metrics.evictions, metrics.misses - metrics.entries as u64);
    assert_eq!(entries[0], entries[2]);
    // 'c' reuses the slot of 'b', the least recently used, one generation later.
    assert_eq!(entries[3].slot, entries[1].slot);
    assert!(entries[3].generation > entries[1].generation);
    for (i, a) in entries.iter().enumerate() {
        for b in &entries[i + 1..] {
            if a.slot == b.slot {
                assert!(a.generation <= b.generation);
            }
        }
    }
}

#[test]
fn glyph_draw_checks_run_before_gpu_work() {
    let smoke = |m: &str| GpuBootstrapError::SmokeReadback(m.to_owned());
    let atlas = UploadPattern { width: 2, height: 2, rgba: vec![0; 16] };
    let batch = one_quad_batch();

    assert_eq!(
        validate_glyph_draw(&batch, &atlas, 16, 8).unwrap(),
        GlyphDrawLayout {
            source_layout: UploadPatternLayout { row_bytes: 8, expected_len: 16 },
            vertex_byte_capacity: 128,
            index_count: 6,
        }
    );
    let empty = GlyphQuadBatch { quads: Vec::new(), indices: Vec::new() };
    assert_eq!(validate_glyph_draw(&empty, &atlas, 16, 8).unwrap_err(), smoke("terminal text draw batch is empty"));
    let short = UploadPattern { width: 2, height: 2, rgba: vec![0; 15] };
    assert_eq!(
        validate_glyph_draw(&batch, &short, 16, 8).unwrap_err(),
        smoke("textured quad source has 15 bytes, expected 16")
    );
    assert_eq!(
        validate_glyph_draw(&batch, &atlas, 0, 8).unwrap_err(),
        smoke("terminal text render target dimensions must be non-zero")
    );
    assert_eq!(validate_textured_quad_draw(&atlas, 0, 4).unwrap_err(), smoke("textured quad dimensions must be non-zero"));
    assert_eq!(
        validate_textured_quad_draw(&atlas, 4, 4).unwrap(),
        UploadPatternLayout { row_bytes: 8, expected_len: 16 }
    );
}
