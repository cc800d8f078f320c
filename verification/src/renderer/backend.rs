//! The renderer boundary: configuration, frame planning into the glyph atlas,
//! and the last planned frame.

use vstd::prelude::*;

use crate::error::GromaqError;
use crate::grid::{CursorSnapshot, DirtyRegion, GridSnapshot};
use crate::renderer::atlas::cache::GlyphAtlasModel;
use crate::renderer::atlas::{GlyphAtlas, GlyphAtlasConfig, GlyphAtlasMetrics};
use crate::renderer::plan::planner::{
    dirty_cells, RenderPlanner, DEFAULT_ANSI_COLORS_RGB8, DEFAULT_FOREGROUND_RGB8, DEFAULT_SELECTION_RGB8,
};
use crate::renderer::plan::types::RenderPlan;

verus! {

/// Glyph entries the renderer's atlas can hold.
pub const DEFAULT_GLYPH_ATLAS_CAPACITY: usize = 4096;

/// Font size of the default renderer configuration.
pub const DEFAULT_RENDERER_FONT_SIZE_PX: u16 = 14;

/// Target frame rate of the default renderer configuration.
pub const DEFAULT_TARGET_FPS: u32 = 144;

/// Renderer configuration: frame pacing, dirty-region rendering, font size and theme colors.
#[derive(Debug, Clone, Copy, PartialEq, Eq)]
pub struct RendererConfig {
    /// Target frames per second.
    pub target_fps: u32,
    /// Whether dirty-region rendering is used; otherwise every frame covers the whole viewport.
    pub dirty_regions: bool,
    /// Font size in pixels used for glyph planning and cache keys.
    pub font_size_px: u16,
    /// Default foreground color.
    pub default_foreground_rgb8: [u8; 3],
    /// ANSI palette.
    pub ansi_colors_rgb8: [[u8; 3]; 16],
    /// Background of selected cells.
    pub selection_background_rgba8: [u8; 4],
}

impl Default for RendererConfig {
    fn default() -> (c: Self)
        ensures
            c.target_fps == DEFAULT_TARGET_FPS,
            c.dirty_regions,
            c.font_size_px == DEFAULT_RENDERER_FONT_SIZE_PX,
            c.default_foreground_rgb8 == DEFAULT_FOREGROUND_RGB8,
            c.ansi_colors_rgb8 == DEFAULT_ANSI_COLORS_RGB8,
            c.selection_background_rgba8 == [DEFAULT_SELECTION_RGB8[0], DEFAULT_SELECTION_RGB8[1], DEFAULT_SELECTION_RGB8[2], 255u8],
    {
        Self {
            target_fps: DEFAULT_TARGET_FPS,
            dirty_regions: true,
            font_size_px: DEFAULT_RENDERER_FONT_SIZE_PX,
            default_foreground_rgb8: DEFAULT_FOREGROUND_RGB8,
            ansi_colors_rgb8: DEFAULT_ANSI_COLORS_RGB8,
            selection_background_rgba8: [DEFAULT_SELECTION_RGB8[0], DEFAULT_SELECTION_RGB8[1], DEFAULT_SELECTION_RGB8[2], 255],
        }
    }
}

/// The planner a configuration calls for.
pub open spec fn planner_matches(p: RenderPlanner, config: RendererConfig) -> bool {
    &&& p.font() == config.font_size_px
    &&& p.foreground() == config.default_foreground_rgb8
    &&& p.palette() == config.ansi_colors_rgb8
    &&& p.selection_background() == config.selection_background_rgba8
}

/// The region covering the whole viewport of `grid`.
pub open spec fn full_viewport(grid: GridSnapshot) -> DirtyRegion {
    DirtyRegion { row: 0, col: 0, rows: grid.rows, cols: grid.cols }
}

/// The regions a frame plans: the dirty regions given, or the whole viewport
/// when dirty-region rendering is off.
pub open spec fn frame_regions(config: RendererConfig, grid: GridSnapshot, dirty: Seq<DirtyRegion>) -> Seq<DirtyRegion> {
    if config.dirty_regions {
        dirty
    } else {
        seq![full_viewport(grid)]
    }
}

/// Narrow GPU rendering interface.
pub trait GpuRenderer {
    /// The renderer can plan a frame of `grid` for `dirty_regions` without any
    /// of its counters overflowing.
    spec fn can_render(&self, grid: GridSnapshot, dirty_regions: Seq<DirtyRegion>) -> bool;

    /// Queue a terminal snapshot for rendering.
    fn render_frame(&mut self, grid: &GridSnapshot, cursor: CursorSnapshot, dirty_regions: &[DirtyRegion]) -> (r: Result<(), GromaqError>)
        requires
            old(self).can_render(*grid, dirty_regions@),
    ;
}

/// Renderer boundary holding the configuration, the frame planner, the glyph
/// atlas and the most recent plan. Device creation is part of the native UI bootstrap.
#[derive(Debug)]
pub struct WgpuRenderer {
    config: RendererConfig,
    planner: RenderPlanner,
    glyph_atlas: GlyphAtlas,
    last_plan: Option<RenderPlan>,
}

impl WgpuRenderer {
    /// Configuration in use.
    pub closed spec fn configuration(&self) -> RendererConfig {
        self.config
    }

    /// Planner in use.
    pub closed spec fn frame_planner(&self) -> RenderPlanner {
        self.planner
    }

    /// State of the glyph atlas.
    pub closed spec fn atlas(&self) -> GlyphAtlasModel {
        self.glyph_atlas@
    }

    /// The most recent plan, if any.
    pub closed spec fn last(&self) -> Option<RenderPlan> {
        self.last_plan
    }

    /// The glyph atlas bookkeeping is consistent.
    pub closed spec fn wf(&self) -> bool {
        self.glyph_atlas.wf()
    }

    /// Create a renderer boundary with an empty glyph atlas of
    /// `DEFAULT_GLYPH_ATLAS_CAPACITY` entries.
    pub fn new(config: RendererConfig) -> (r: Result<Self, GromaqError>)
        ensures
            r matches Ok(renderer) && {
                &&& renderer.wf()
                &&& renderer.configuration() == config
                &&& planner_matches(renderer.frame_planner(), config)
                &&& renderer.atlas().entries.len() == 0
                &&& renderer.atlas().capacity == DEFAULT_GLYPH_ATLAS_CAPACITY
                &&& renderer.atlas().hits == 0
                &&& renderer.atlas().misses == 0
                &&& renderer.atlas().evictions == 0
                &&& renderer.atlas().generations == Seq::new(DEFAULT_GLYPH_ATLAS_CAPACITY as nat, |i: int| 0u64)
                &&& renderer.last() is None
            },
    {
        let atlas_config = match GlyphAtlasConfig::new(DEFAULT_GLYPH_ATLAS_CAPACITY) {
            Ok(c) => c,
            Err(e) => return Err(e),
        };
        Ok(Self {
            planner: RenderPlanner::with_visual_theme(
                config.font_size_px,
                config.default_foreground_rgb8,
                config.ansi_colors_rgb8,
                config.selection_background_rgba8,
            ),
            config,
            glyph_atlas: GlyphAtlas::new(atlas_config),
            last_plan: None,
        })
    }

    /// Access renderer configuration.
    pub fn config(&self) -> (c: &RendererConfig)
        ensures
            *c == self.configuration(),
    {
        &self.config
    }

    /// Replace renderer configuration for future frame planning; the last plan
    /// is dropped and the glyph atlas kept.
    pub fn reconfigure(&mut self, config: RendererConfig)
        requires
            old(self).wf(),
        ensures
            final(self).wf(),
            final(self).configuration() == config,
            planner_matches(final(self).frame_planner(), config),
            final(self).atlas() == old(self).atlas(),
            final(self).last() is None,
    {
        self.planner = RenderPlanner::with_visual_theme(
            config.font_size_px,
            config.default_foreground_rgb8,
            config.ansi_colors_rgb8,
            config.selection_background_rgba8,
        );
        self.config = config;
        self.last_plan = None;
    }

    /// Return the most recent planned frame.
    pub fn last_plan(&self) -> (r: Option<&RenderPlan>)
        ensures
            r == (match self.last() {
                Some(p) => Some(&p),
                None => None::<&RenderPlan>,
            }),
    {
        match &self.last_plan {
            Some(p) => Some(p),
            None => None,
        }
    }

    /// Return internal glyph atlas metrics.
    pub fn glyph_atlas_metrics(&self) -> (m: GlyphAtlasMetrics)
        ensures
            m == (GlyphAtlasMetrics {
                hits: self.atlas().hits,
                misses: self.atlas().misses,
                evictions: self.atlas().evictions,
                entries: self.atlas().entries.len() as usize,
            }),
    {
        self.glyph_atlas.metrics()
    }
}

impl GpuRenderer for WgpuRenderer {
    open spec fn can_render(&self, grid: GridSnapshot, dirty_regions: Seq<DirtyRegion>) -> bool {
        &&& self.wf()
        &&& self.atlas().has_headroom(
            dirty_cells(frame_regions(self.configuration(), grid, dirty_regions), grid.rows, grid.cols),
        )
    }

    /// Plan the frame for the dirty regions (or the whole viewport when
    /// dirty-region rendering is off) into the glyph atlas, and keep the plan.
    fn render_frame(&mut self, grid: &GridSnapshot, cursor: CursorSnapshot, dirty_regions: &[DirtyRegion]) -> (r: Result<(), GromaqError>)
        ensures
            r is Ok,
            final(self).wf(),
            final(self).configuration() == old(self).configuration(),
            final(self).frame_planner() == old(self).frame_planner(),
            final(self).last() matches Some(plan) && old(self).frame_planner().is_frame_plan(
                *grid,
                cursor,
                frame_regions(old(self).configuration(), *grid, dirty_regions@),
                old(self).atlas(),
                plan,
                final(self).atlas(),
            ),
    {
        let full = [DirtyRegion { row: 0, col: 0, rows: grid.rows, cols: grid.cols }];
        let regions: &[DirtyRegion] = if self.config.dirty_regions {
            dirty_regions
        } else {
            proof {
                assert(full@ =~= seq![full_viewport(*grid)]);
            }
            full.as_slice()
        };
        let plan = match self.planner.plan_frame(grid, cursor, regions, &mut self.glyph_atlas) {
            Ok(plan) => plan,
            Err(e) => return Err(e),
        };
        self.last_plan = Some(plan);
        Ok(())
    }
}

} // verus!
