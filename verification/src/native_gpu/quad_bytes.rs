//! Checked vertex-byte capacities and little-endian index bytes for GPU quads.

use vstd::prelude::*;
use vstd::bytes::{spec_u16_to_le_bytes, spec_u32_to_le_bytes, u16_to_le_bytes, u32_to_le_bytes};

use crate::native_gpu::error::{is_smoke_error, smoke_error, GpuBootstrapError};
use crate::renderer::quads::GlyphQuadBatch;

verus! {

/// Bytes of one textured glyph quad: four vertices of eight `f32` values.
pub const GLYPH_QUAD_VERTEX_BYTES: usize = 128;

/// Bytes of one solid background quad: four vertices of six `f32` values.
pub const BACKGROUND_QUAD_VERTEX_BYTES: usize = 96;

/// Little-endian bytes of the `u32` values of `s`, in order.
pub open spec fn u32_le_bytes(s: Seq<u32>) -> Seq<u8>
    decreases s.len(),
{
    if s.len() == 0 {
        Seq::empty()
    } else {
        u32_le_bytes(s.drop_last()) + spec_u32_to_le_bytes(s.last())
    }
}

/// Little-endian bytes of the `u16` values of `s`, in order.
pub open spec fn u16_le_bytes(s: Seq<u16>) -> Seq<u8>
    decreases s.len(),
{
    if s.len() == 0 {
        Seq::empty()
    } else {
        u16_le_bytes(s.drop_last()) + spec_u16_to_le_bytes(s.last())
    }
}

/// Vertex bytes for `quad_count` textured glyph quads, if that fits in a `usize`.
pub fn glyph_quad_vertex_byte_capacity(quad_count: usize) -> (r: Result<usize, GpuBootstrapError>)
    ensures
        quad_count * 128 <= usize::MAX ==> r == Ok::<usize, GpuBootstrapError>((quad_count * 128) as usize),
        quad_count * 128 > usize::MAX ==> (r matches Err(e) && is_smoke_error(e, "terminal text vertex bytes are too large"@)),
{
    match quad_count.checked_mul(GLYPH_QUAD_VERTEX_BYTES) {
        Some(n) => Ok(n),
        None => Err(smoke_error("terminal text vertex bytes are too large")),
    }
}

/// Vertex bytes for `quad_count` solid background quads, if that fits in a `usize`.
pub fn background_quad_vertex_byte_capacity(quad_count: usize) -> (r: Result<usize, GpuBootstrapError>)
    ensures
        quad_count * 96 <= usize::MAX ==> r == Ok::<usize, GpuBootstrapError>((quad_count * 96) as usize),
        quad_count * 96 > usize::MAX ==> (r matches Err(e) && is_smoke_error(e, "terminal background vertex bytes are too large"@)),
{
    match quad_count.checked_mul(BACKGROUND_QUAD_VERTEX_BYTES) {
        Some(n) => Ok(n),
        None => Err(smoke_error("terminal background vertex bytes are too large")),
    }
}

/// Little-endian bytes of `indices`, in order.
pub fn u32_index_bytes(indices: &[u32]) -> (bytes: Vec<u8>)
    ensures
        bytes@ == u32_le_bytes(indices@),
{
    let mut bytes: Vec<u8> = Vec::new();
    let mut i: usize = 0;
    while i < indices.len()
        invariant
            i <= indices@.len(),
            bytes@ == u32_le_bytes(indices@.subrange(0, i as int)),
        decreases indices@.len() - i,
    {
        let le = u32_to_le_bytes(indices[i]);
        bytes.extend_from_slice(le.as_slice());
        proof {
            assert(indices@.subrange(0, i + 1).drop_last() =~= indices@.subrange(0, i as int));
            assert(bytes@ =~= u32_le_bytes(indices@.subrange(0, i + 1)));
        }
        i = i + 1;
    }
    proof {
        assert(indices@.subrange(0, indices@.len() as int) =~= indices@);
    }
    bytes
}

/// Little-endian bytes of the triangle indices of a glyph quad batch.
pub fn glyph_quad_index_bytes(batch: &GlyphQuadBatch) -> (bytes: Vec<u8>)
    ensures
        bytes@ == u32_le_bytes(batch.indices@),
{
    u32_index_bytes(batch.indices.as_slice())
}

/// The two triangles of a single textured quad, `0 1 2 0 2 3`, as little-endian `u16` bytes.
pub fn textured_quad_index_bytes() -> (bytes: Vec<u8>)
    ensures
        bytes@ == u16_le_bytes(seq![0u16, 1, 2, 0, 2, 3]),
{
    let indices: [u16; 6] = [0, 1, 2, 0, 2, 3];
    let mut bytes: Vec<u8> = Vec::new();
    let mut i: usize = 0;
    while i < 6
        invariant
            i <= 6,
            indices@ == seq![0u16, 1, 2, 0, 2, 3],
            bytes@ == u16_le_bytes(indices@.subrange(0, i as int)),
        decreases 6 - i,
    {
        let le = u16_to_le_bytes(indices[i]);
        bytes.extend_from_slice(le.as_slice());
        proof {
            assert(indices@.subrange(0, i + 1).drop_last() =~= indices@.subrange(0, i as int));
            assert(bytes@ =~= u16_le_bytes(indices@.subrange(0, i + 1)));
        }
        i = i + 1;
    }
    proof {
        assert(indices@.subrange(0, 6) =~= indices@);
    }
    bytes
}

} // verus!
