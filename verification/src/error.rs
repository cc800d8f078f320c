//! Errors shared by the terminal renderer components.

use vstd::prelude::*;

verus! {

/// Errors produced by renderer configuration and glyph caching.
#[derive(Debug, Clone, PartialEq, Eq)]
pub enum GromaqError {
    /// A frame rate outside the supported range was requested.
    InvalidTargetFps {
        /// Smallest supported frame rate.
        minimum: u32,
        /// Largest supported frame rate.
        maximum: u32,
        /// Requested frame rate.
        actual: u32,
    },
    /// A glyph atlas capacity outside the supported range was requested.
    InvalidGlyphAtlasCapacity {
        /// Smallest supported capacity.
        minimum: usize,
        /// Largest supported capacity.
        maximum: usize,
        /// Requested capacity.
        actual: usize,
    },
    /// The glyph atlas bookkeeping was found inconsistent.
    GlyphAtlasInvariant {
        /// What was inconsistent.
        reason: &'static str,
    },
}

} // verus!
