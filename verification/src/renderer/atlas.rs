//! Glyph atlas configuration, entry handles and cache metrics.

pub mod cache;
pub mod key;
pub mod laws;

pub use cache::GlyphAtlas;
pub use key::{GlyphKey, GlyphKeyText};

use vstd::prelude::*;

use crate::error::GromaqError;

verus! {

/// Largest supported number of cached glyph entries.
pub const MAX_GLYPH_ATLAS_CAPACITY: usize = 65_536;

/// Glyph atlas configuration.
#[derive(Debug, Clone, Copy, PartialEq, Eq, Structural)]
pub struct GlyphAtlasConfig {
    capacity: usize,
}

impl GlyphAtlasConfig {
    /// The configured capacity.
    pub closed spec fn spec_capacity(&self) -> usize {
        self.capacity
    }

    /// Create a glyph atlas configuration.
    pub fn new(capacity: usize) -> (r: Result<Self, GromaqError>)
        ensures
            (capacity == 0 || capacity > MAX_GLYPH_ATLAS_CAPACITY) ==> r == Err::<Self, GromaqError>(
                GromaqError::InvalidGlyphAtlasCapacity { minimum: 1, maximum: MAX_GLYPH_ATLAS_CAPACITY, actual: capacity },
            ),
            !(capacity == 0 || capacity > MAX_GLYPH_ATLAS_CAPACITY) ==> (r matches Ok(c) && c.spec_capacity() == capacity && c.valid()),
    {
        if capacity == 0 || capacity > MAX_GLYPH_ATLAS_CAPACITY {
            return Err(GromaqError::InvalidGlyphAtlasCapacity {
                minimum: 1,
                maximum: MAX_GLYPH_ATLAS_CAPACITY,
                actual: capacity,
            });
        }
        Ok(Self { capacity })
    }

    /// Every configuration holds a capacity in `1..=MAX_GLYPH_ATLAS_CAPACITY`.
    pub closed spec fn valid(&self) -> bool {
        1 <= self.capacity <= MAX_GLYPH_ATLAS_CAPACITY
    }

    /// Maximum cached glyph entries.
    pub fn capacity(&self) -> (r: usize)
        ensures
            r == self.spec_capacity(),
    {
        self.capacity
    }
}

/// Glyph atlas entry handle.
#[derive(Debug, Clone, Copy, PartialEq, Eq, Hash, Structural)]
pub struct GlyphEntry {
    /// Stable slot index inside the atlas.
    pub slot: u32,
    /// Generation increments whenever a slot is reused.
    pub generation: u64,
}

/// Glyph atlas cache metrics.
#[derive(Debug, Clone, Copy, Default, PartialEq, Eq, Structural)]
pub struct GlyphAtlasMetrics {
    /// Cache hits.
    pub hits: u64,
    /// Cache misses.
    pub misses: u64,
    /// Cache evictions.
    pub evictions: u64,
    /// Current entry count.
    pub entries: usize,
}

} // verus!
