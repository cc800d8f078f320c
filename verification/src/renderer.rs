//! Renderer logic: glyph atlas cache, atlas images, render plans, quads,
//! frame pacing and surface configuration.

pub mod atlas;
pub mod backend;
pub mod color;
pub mod glyph_frame;
pub mod image;
pub mod plan;
pub mod prepared_frame;
pub mod preview;
pub mod quads;
pub mod scheduler;
pub mod surface;
pub mod surface_frame;

pub use atlas::{GlyphAtlas, GlyphAtlasConfig, GlyphAtlasMetrics, GlyphEntry, GlyphKey, GlyphKeyText};
pub use backend::{GpuRenderer, RendererConfig, WgpuRenderer};
pub use glyph_frame::{PreparedSurfaceGlyphFrame, PreparedSurfaceGlyphFrameConfig};
pub use image::{GlyphAtlasImage, GlyphBitmap, GlyphImageError};
pub use plan::planner::RenderPlanner;
pub use plan::{PlannedBackground, PlannedGlyph, PlannedTextDecoration, RenderPlan, TextDecorationKind};
pub use preview::PreparedFramePreview;
pub use quads::{GlyphQuad, GlyphQuadBatch, GlyphQuadConfig, GlyphQuadError, GlyphQuadPlanner};
pub use scheduler::{FrameDecision, FrameScheduler, FrameSchedulerMetrics, RenderReason};
pub use surface::{
    SurfaceBackend, SurfaceCapabilitySet, SurfaceConfigChoice, SurfaceConfigError, SurfaceConfigPlanner,
    SurfaceConfigurationController, SurfaceLifecycle, SurfaceLifecycleAction,
};
pub use surface_frame::SurfaceFrameError;
