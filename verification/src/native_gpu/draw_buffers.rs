//! Checked draw-buffer sizing for native GPU smoke render paths.

use vstd::prelude::*;

use crate::native_gpu::error::{is_smoke_error, smoke_error, GpuBootstrapError};

verus! {

/// Sizes of a validated vertex/index buffer pair.
#[derive(Debug, Clone, Copy, PartialEq, Eq, Structural)]
pub struct DrawBufferLayout {
    /// Vertex buffer size in bytes.
    pub vertex_buffer_size: u64,
    /// Index buffer size in bytes.
    pub index_buffer_size: u64,
    /// Number of indices drawn.
    pub index_count: u32,
}

/// The layout of a non-empty vertex/index buffer pair.
pub open spec fn buffer_layout(vertex_len: nat, index_len: nat, index_count: u32) -> DrawBufferLayout {
    DrawBufferLayout { vertex_buffer_size: vertex_len as u64, index_buffer_size: index_len as u64, index_count }
}

/// The index count of a textured draw, if a `u32` draw range can hold it.
pub fn checked_textured_index_count(index_count: usize) -> (r: Result<u32, GpuBootstrapError>)
    ensures
        index_count <= u32::MAX ==> r == Ok::<u32, GpuBootstrapError>(index_count as u32),
        index_count > u32::MAX ==> (r matches Err(e) && is_smoke_error(e, "terminal text index count is too large"@)),
{
    if index_count > 4294967295 {
        return Err(smoke_error("terminal text index count is too large"));
    }
    Ok(index_count as u32)
}

/// Validate the buffers of a textured draw.
pub fn validate_textured_draw_buffers(vertex_bytes: &[u8], index_bytes: &[u8], index_count: u32) -> (r: Result<DrawBufferLayout, GpuBootstrapError>)
    ensures
        (vertex_bytes@.len() == 0 || index_bytes@.len() == 0 || index_count == 0) ==> (r matches Err(e)
            && is_smoke_error(e, "textured draw buffers must be non-empty"@)),
        !(vertex_bytes@.len() == 0 || index_bytes@.len() == 0 || index_count == 0) ==> r == Ok::<DrawBufferLayout, GpuBootstrapError>(
            buffer_layout(vertex_bytes@.len(), index_bytes@.len(), index_count),
        ),
{
    validate_draw_buffers(vertex_bytes, index_bytes, index_count, "textured draw buffers must be non-empty")
}

/// Validate the buffers of a solid background draw.
pub fn validate_background_draw_buffers(vertex_bytes: &[u8], index_bytes: &[u8], index_count: u32) -> (r: Result<DrawBufferLayout, GpuBootstrapError>)
    ensures
        (vertex_bytes@.len() == 0 || index_bytes@.len() == 0 || index_count == 0) ==> (r matches Err(e)
            && is_smoke_error(e, "background draw buffers must be non-empty"@)),
        !(vertex_bytes@.len() == 0 || index_bytes@.len() == 0 || index_count == 0) ==> r == Ok::<DrawBufferLayout, GpuBootstrapError>(
            buffer_layout(vertex_bytes@.len(), index_bytes@.len(), index_count),
        ),
{
    validate_draw_buffers(vertex_bytes, index_bytes, index_count, "background draw buffers must be non-empty")
}

/// Encoded vertices and indices of a solid background draw.
#[derive(Debug, Clone, PartialEq, Eq)]
pub struct BackgroundDrawInput {
    /// Little-endian vertex bytes.
    pub vertex_bytes: Vec<u8>,
    /// Little-endian `u32` index bytes.
    pub index_bytes: Vec<u8>,
    /// Number of indices drawn.
    pub index_count: u32,
}

/// Validate the buffers of a prepared background draw.
pub fn validate_background_draw_input(input: &BackgroundDrawInput) -> (r: Result<DrawBufferLayout, GpuBootstrapError>)
    ensures
        (input.vertex_bytes@.len() == 0 || input.index_bytes@.len() == 0 || input.index_count == 0) ==> (r matches Err(e)
            && is_smoke_error(e, "background draw buffers must be non-empty"@)),
        !(input.vertex_bytes@.len() == 0 || input.index_bytes@.len() == 0 || input.index_count == 0) ==> r
            == Ok::<DrawBufferLayout, GpuBootstrapError>(
            buffer_layout(input.vertex_bytes@.len(), input.index_bytes@.len(), input.index_count),
        ),
{
    validate_background_draw_buffers(&input.vertex_bytes, &input.index_bytes, input.index_count)
}

/// Validate a vertex/index buffer pair: both non-empty and at least one index.
/// Buffer lengths always fit the `u64` sizes `wgpu` takes.
fn validate_draw_buffers(vertex_bytes: &[u8], index_bytes: &[u8], index_count: u32, empty_error: &str) -> (r: Result<DrawBufferLayout, GpuBootstrapError>)
    ensures
        (vertex_bytes@.len() == 0 || index_bytes@.len() == 0 || index_count == 0) ==> (r matches Err(e)
            && is_smoke_error(e, empty_error@)),
        !(vertex_bytes@.len() == 0 || index_bytes@.len() == 0 || index_count == 0) ==> r == Ok::<DrawBufferLayout, GpuBootstrapError>(
            buffer_layout(vertex_bytes@.len(), index_bytes@.len(), index_count),
        ),
{
    if vertex_bytes.len() == 0 || index_bytes.len() == 0 || index_count == 0 {
        return Err(smoke_error(empty_error));
    }
    Ok(DrawBufferLayout {
        vertex_buffer_size: vertex_bytes.len() as u64,
        index_buffer_size: index_bytes.len() as u64,
        index_count,
    })
}

} // verus!
