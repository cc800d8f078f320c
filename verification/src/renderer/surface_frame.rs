//! Surface frame errors and the checks applied before a glyph frame is drawn.

use vstd::prelude::*;

use crate::native_gpu::quad_bytes::{u32_index_bytes, u32_le_bytes};
use crate::renderer::image::GlyphAtlasImage;
use crate::renderer::quads::GlyphQuadBatch;
use crate::text::{append_decimal, append_str, concat, decimal};

verus! {

/// Errors produced while acquiring or presenting a native surface frame.
#[derive(Debug, Clone, PartialEq, Eq)]
pub enum SurfaceFrameError {
    /// Surface acquisition timed out; the frame should be skipped.
    Timeout,
    /// Surface is currently occluded; the frame should be skipped.
    Occluded,
    /// Surface configuration is outdated and must be refreshed.
    Outdated,
    /// Surface was lost and must be recreated.
    Lost,
    /// Surface acquisition hit a validation error.
    Validation,
    /// A terminal glyph frame could not be rendered.
    InvalidFrame(String),
}

/// `e` reports an invalid frame with message `message`.
pub open spec fn is_invalid_frame(e: SurfaceFrameError, message: Seq<char>) -> bool {
    e matches SurfaceFrameError::InvalidFrame(m) && m@ == message
}

/// The text describing `e`.
pub open spec fn frame_error_text(e: SurfaceFrameError) -> Seq<char> {
    match e {
        SurfaceFrameError::Timeout => "surface frame acquisition timed out"@,
        SurfaceFrameError::Occluded => "surface is occluded"@,
        SurfaceFrameError::Outdated => "surface configuration is outdated"@,
        SurfaceFrameError::Lost => "surface was lost"@,
        SurfaceFrameError::Validation => "surface frame acquisition validation error"@,
        SurfaceFrameError::InvalidFrame(m) => "invalid surface frame: "@ + m@,
    }
}

impl SurfaceFrameError {
    /// The text describing this error.
    pub fn message(&self) -> (s: String)
        ensures
            s@ == frame_error_text(*self),
    {
        match self {
            SurfaceFrameError::Timeout => "surface frame acquisition timed out".to_owned(),
            SurfaceFrameError::Occluded => "surface is occluded".to_owned(),
            SurfaceFrameError::Outdated => "surface configuration is outdated".to_owned(),
            SurfaceFrameError::Lost => "surface was lost".to_owned(),
            SurfaceFrameError::Validation => "surface frame acquisition validation error".to_owned(),
            SurfaceFrameError::InvalidFrame(m) => concat("invalid surface frame: ", m.as_str()),
        }
    }
}

/// An invalid-frame error with the given message.
pub fn invalid_frame(message: &str) -> (e: SurfaceFrameError)
    ensures
        is_invalid_frame(e, message@),
{
    SurfaceFrameError::InvalidFrame(message.to_owned())
}

/// Checked dense layout of the glyph atlas uploaded for a surface frame.
#[derive(Debug, Clone, Copy, PartialEq, Eq, Structural)]
pub struct SurfaceGlyphAtlasLayout {
    /// Dense bytes per atlas row.
    pub row_bytes: u32,
    /// Dense bytes of the whole atlas.
    pub expected_len: usize,
}

/// Checked sizes of the vertex and index buffers of a surface frame.
#[derive(Debug, Clone, Copy, PartialEq, Eq, Structural)]
pub struct SurfaceGlyphBufferLayout {
    /// Vertex buffer size in bytes.
    pub vertex_buffer_size: u64,
    /// Index buffer size in bytes.
    pub index_buffer_size: u64,
    /// Number of indices drawn.
    pub index_count: u32,
}

/// Message for an atlas holding `actual` bytes where `expected` were due.
pub open spec fn atlas_len_mismatch(actual: nat, expected: nat) -> Seq<char> {
    "surface glyph atlas has "@ + decimal(actual) + " bytes, expected "@ + decimal(expected)
}

/// Why a `width` x `height` frame sampling `atlas` and drawing `batch` cannot be drawn, if it cannot.
pub open spec fn glyph_frame_error(atlas: GlyphAtlasImage, quads: nat, indices: nat, width: u32, height: u32) -> Option<Seq<char>> {
    if width == 0 || height == 0 {
        Some("surface glyph frame dimensions must be non-zero"@)
    } else if atlas.width == 0 || atlas.height == 0 {
        Some("surface glyph atlas dimensions must be non-zero"@)
    } else if atlas.width * 4 > u32::MAX {
        Some("surface glyph atlas row size is too large"@)
    } else if atlas.width * 4 * atlas.height > usize::MAX {
        Some("surface glyph atlas byte size is too large"@)
    } else if atlas.rgba@.len() != atlas.width * 4 * atlas.height {
        Some(atlas_len_mismatch(atlas.rgba@.len(), (atlas.width * 4 * atlas.height) as nat))
    } else if quads == 0 || indices == 0 {
        Some("surface glyph frame requires non-empty quads and indices"@)
    } else {
        None
    }
}

/// Validate a glyph frame before drawing: non-zero target and atlas, an atlas
/// holding exactly its dense RGBA8 bytes, and something to draw.
pub fn validate_surface_glyph_frame(atlas: &GlyphAtlasImage, batch: &GlyphQuadBatch, width: u32, height: u32) -> (r: Result<SurfaceGlyphAtlasLayout, SurfaceFrameError>)
    ensures
        match glyph_frame_error(*atlas, batch.quads@.len(), batch.indices@.len(), width, height) {
            Some(m) => r matches Err(e) && is_invalid_frame(e, m),
            None => r == Ok::<SurfaceGlyphAtlasLayout, SurfaceFrameError>(
                SurfaceGlyphAtlasLayout {
                    row_bytes: (atlas.width * 4) as u32,
                    expected_len: (atlas.width * 4 * atlas.height) as usize,
                },
            ),
        },
{
    if width == 0 || height == 0 {
        return Err(invalid_frame("surface glyph frame dimensions must be non-zero"));
    }
    if atlas.width == 0 || atlas.height == 0 {
        return Err(invalid_frame("surface glyph atlas dimensions must be non-zero"));
    }
    let row_bytes = match atlas.width.checked_mul(4) {
        Some(n) => n,
        None => return Err(invalid_frame("surface glyph atlas row size is too large")),
    };
    let expected_len = match (row_bytes as usize).checked_mul(atlas.height as usize) {
        Some(n) => n,
        None => return Err(invalid_frame("surface glyph atlas byte size is too large")),
    };
    if atlas.rgba.len() != expected_len {
        let mut message = "surface glyph atlas has ".to_owned();
        append_decimal(&mut message, atlas.rgba.len() as u64);
        append_str(&mut message, " bytes, expected ");
        append_decimal(&mut message, expected_len as u64);
        return Err(SurfaceFrameError::InvalidFrame(message));
    }
    if batch.quads.len() == 0 || batch.indices.len() == 0 {
        return Err(invalid_frame("surface glyph frame requires non-empty quads and indices"));
    }
    Ok(SurfaceGlyphAtlasLayout { row_bytes, expected_len })
}

/// Validate the vertex and index buffers of a glyph frame: both non-empty, at
/// least one index, and an index count that a `u32` draw range holds.
pub fn validate_surface_glyph_buffers(vertex_bytes: &[u8], index_bytes: &[u8], index_count: usize) -> (r: Result<SurfaceGlyphBufferLayout, SurfaceFrameError>)
    ensures
        (vertex_bytes@.len() == 0 || index_bytes@.len() == 0 || index_count == 0) ==> (r matches Err(e) && is_invalid_frame(
            e,
            "surface glyph draw buffers must be non-empty"@,
        )),
        !(vertex_bytes@.len() == 0 || index_bytes@.len() == 0 || index_count == 0) && index_count > u32::MAX ==> (r matches Err(
            e,
        ) && is_invalid_frame(e, "surface glyph index count is too large"@)),
        !(vertex_bytes@.len() == 0 || index_bytes@.len() == 0 || index_count == 0) && index_count <= u32::MAX ==> r == Ok::<
            SurfaceGlyphBufferLayout,
            SurfaceFrameError,
        >(
            SurfaceGlyphBufferLayout {
                vertex_buffer_size: vertex_bytes@.len() as u64,
                index_buffer_size: index_bytes@.len() as u64,
                index_count: index_count as u32,
            },
        ),
{
    if vertex_bytes.len() == 0 || index_bytes.len() == 0 || index_count == 0 {
        return Err(invalid_frame("surface glyph draw buffers must be non-empty"));
    }
    if index_count > 4294967295 {
        return Err(invalid_frame("surface glyph index count is too large"));
    }
    Ok(SurfaceGlyphBufferLayout {
        vertex_buffer_size: vertex_bytes.len() as u64,
        index_buffer_size: index_bytes.len() as u64,
        index_count: index_count as u32,
    })
}

/// Vertex bytes of `quad_count` surface glyph quads (four vertices of four
/// `f32` values each), if that fits in a `usize`.
pub fn surface_glyph_vertex_byte_capacity(quad_count: usize) -> (r: Result<usize, SurfaceFrameError>)
    ensures
        quad_count * 64 <= usize::MAX ==> r == Ok::<usize, SurfaceFrameError>((quad_count * 64) as usize),
        quad_count * 64 > usize::MAX ==> (r matches Err(e) && is_invalid_frame(e, "surface glyph vertex bytes are too large"@)),
{
    match quad_count.checked_mul(64) {
        Some(n) => Ok(n),
        None => Err(invalid_frame("surface glyph vertex bytes are too large")),
    }
}

/// Little-endian bytes of the triangle indices of a surface glyph batch.
pub fn surface_glyph_index_bytes(batch: &GlyphQuadBatch) -> (bytes: Vec<u8>)
    ensures
        bytes@ == u32_le_bytes(batch.indices@),
{
    u32_index_bytes(batch.indices.as_slice())
}

} // verus!
