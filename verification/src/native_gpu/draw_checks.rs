//! The checks a textured draw makes before it touches the GPU: the source
//! pattern, the target size, and the vertex and index counts.

use vstd::prelude::*;

use crate::native_gpu::draw_buffers::checked_textured_index_count;
use crate::native_gpu::error::{is_smoke_error, smoke_error, GpuBootstrapError};
use crate::native_gpu::quad_bytes::glyph_quad_vertex_byte_capacity;
use crate::native_gpu::upload::{
    dense_layout, layout_error, length_mismatch, validate_pattern_bytes, UploadPattern, UploadPatternLayout,
};
use crate::renderer::quads::GlyphQuadBatch;

verus! {

/// Why `pattern`, uploaded as a textured-draw source, is refused, if it is.
pub open spec fn source_error(pattern: UploadPattern) -> Option<Seq<char>> {
    match layout_error(pattern.width, pattern.height) {
        Some(m) => Some(m),
        None => if pattern.rgba@.len() != dense_layout(pattern.width, pattern.height).expected_len {
            Some(
                length_mismatch(
                    "textured quad source"@,
                    pattern.rgba@.len(),
                    dense_layout(pattern.width, pattern.height).expected_len as nat,
                ),
            )
        } else {
            None
        },
    }
}

/// Check a textured-draw source pattern: a dense layout, and exactly the bytes it calls for.
pub fn validate_textured_source_pattern(pattern: &UploadPattern) -> (r: Result<UploadPatternLayout, GpuBootstrapError>)
    ensures
        match source_error(*pattern) {
            Some(m) => r matches Err(e) && is_smoke_error(e, m),
            None => r == Ok::<UploadPatternLayout, GpuBootstrapError>(dense_layout(pattern.width, pattern.height)),
        },
{
    validate_pattern_bytes(pattern, "textured quad source")
}

/// Check a textured quad draw of `pattern` onto a `width` x `height` target:
/// the target is not empty and the source pattern is valid.
pub fn validate_textured_quad_draw(pattern: &UploadPattern, width: u32, height: u32) -> (r: Result<UploadPatternLayout, GpuBootstrapError>)
    ensures
        (width == 0 || height == 0) ==> (r matches Err(e) && is_smoke_error(e, "textured quad dimensions must be non-zero"@)),
        !(width == 0 || height == 0) ==> match source_error(*pattern) {
            Some(m) => r matches Err(e) && is_smoke_error(e, m),
            None => r == Ok::<UploadPatternLayout, GpuBootstrapError>(dense_layout(pattern.width, pattern.height)),
        },
{
    if width == 0 || height == 0 {
        return Err(smoke_error("textured quad dimensions must be non-zero"));
    }
    validate_textured_source_pattern(pattern)
}

/// Checked sizes of a glyph-quad draw.
#[derive(Debug, Clone, Copy, PartialEq, Eq, Structural)]
pub struct GlyphDrawLayout {
    /// Layout of the glyph atlas uploaded as the source texture.
    pub source_layout: UploadPatternLayout,
    /// Bytes of the glyph vertices.
    pub vertex_byte_capacity: usize,
    /// Number of indices drawn.
    pub index_count: u32,
}

/// Why a draw of `quads` glyph quads with `indices` indices, sampling `atlas`,
/// onto a `width` x `height` target is refused, if it is; the checks run in this order.
pub open spec fn glyph_draw_error(quads: nat, indices: nat, atlas: UploadPattern, width: u32, height: u32) -> Option<Seq<char>> {
    if quads == 0 {
        Some("terminal text draw batch is empty"@)
    } else if source_error(atlas) is Some {
        source_error(atlas)
    } else if width == 0 || height == 0 {
        Some("terminal text render target dimensions must be non-zero"@)
    } else if quads * 128 > usize::MAX {
        Some("terminal text vertex bytes are too large"@)
    } else if indices > u32::MAX {
        Some("terminal text index count is too large"@)
    } else {
        None
    }
}

/// Check a glyph-quad draw of `batch`, sampling the atlas pattern `atlas`, onto
/// a `width` x `height` target before any GPU work: the batch is not empty, the
/// atlas is a valid source, the vertex bytes fit in memory, and the index count
/// fits a draw range.
pub fn validate_glyph_draw(batch: &GlyphQuadBatch, atlas: &UploadPattern, width: u32, height: u32) -> (r: Result<GlyphDrawLayout, GpuBootstrapError>)
    ensures
        match glyph_draw_error(batch.quads@.len(), batch.indices@.len(), *atlas, width, height) {
            Some(m) => r matches Err(e) && is_smoke_error(e, m),
            None => r == Ok::<GlyphDrawLayout, GpuBootstrapError>(
                GlyphDrawLayout {
                    source_layout: dense_layout(atlas.width, atlas.height),
                    vertex_byte_capacity: (batch.quads@.len() * 128) as usize,
                    index_count: batch.indices@.len() as u32,
                },
            ),
        },
{
    if batch.quads.len() == 0 {
        return Err(smoke_error("terminal text draw batch is empty"));
    }
    let source_layout = validate_textured_source_pattern(atlas)?;
    if width == 0 || height == 0 {
        return Err(smoke_error("terminal text render target dimensions must be non-zero"));
    }
    let vertex_byte_capacity = glyph_quad_vertex_byte_capacity(batch.quads.len())?;
    let index_count = checked_textured_index_count(batch.indices.len())?;
    Ok(GlyphDrawLayout { source_layout, vertex_byte_capacity, index_count })
}

} // verus!
