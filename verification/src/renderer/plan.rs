//! CPU-side render planning from terminal snapshots.

pub mod clipping;
pub mod decorations;
pub mod fill;
pub mod planner;
pub mod text;
pub mod types;

pub use types::{PlannedBackground, PlannedGlyph, PlannedTextDecoration, RenderPlan, TextDecorationKind};
