//! Textured glyph quads in integer pixel geometry.
//!
//! A quad is described by the pixel rectangle it covers on the target and the
//! pixel rectangle it samples in the glyph atlas; the GPU side turns both into
//! vertex positions and normalized texture coordinates.

use vstd::prelude::*;

use crate::renderer::atlas::GlyphEntry;
use crate::renderer::plan::planner::PlannedGlyphModel;
use crate::renderer::plan::types::{PlannedGlyph, RenderPlan};
use crate::text::{append_decimal, append_str, decimal};

verus! {

/// Pixel and atlas layout used to build textured glyph quads.
#[derive(Debug, Clone, Copy, PartialEq, Eq, Structural)]
pub struct GlyphQuadConfig {
    /// Terminal cell width in pixels.
    pub cell_width_px: u32,
    /// Terminal cell height in pixels.
    pub cell_height_px: u32,
    /// Glyph atlas slot width in pixels.
    pub atlas_slot_width_px: u32,
    /// Glyph atlas slot height in pixels.
    pub atlas_slot_height_px: u32,
    /// Number of atlas slots per row.
    pub atlas_columns: u32,
    /// Atlas texture width in pixels.
    pub atlas_width_px: u32,
    /// Atlas texture height in pixels.
    pub atlas_height_px: u32,
}

/// Errors produced while building textured glyph quads.
#[derive(Debug, Clone, Copy, PartialEq, Eq, Structural)]
pub enum GlyphQuadError {
    /// Pixel or atlas dimensions must be non-zero.
    ZeroDimension,
    /// The planned glyph batch cannot be represented in `u32` GPU indices.
    IndexCountTooLarge,
    /// A glyph atlas slot falls outside the configured atlas texture.
    SlotOutsideAtlas {
        /// Atlas slot index that could not be represented.
        slot: u32,
    },
}

/// The text describing `e`.
pub open spec fn quad_error_text(e: GlyphQuadError) -> Seq<char> {
    match e {
        GlyphQuadError::ZeroDimension => "glyph quad dimensions must be non-zero"@,
        GlyphQuadError::IndexCountTooLarge => "glyph quad count is too large for u32 GPU indices"@,
        GlyphQuadError::SlotOutsideAtlas { slot } => "glyph atlas slot "@ + decimal(slot as nat)
            + " is outside the configured atlas image"@,
    }
}

impl GlyphQuadError {
    /// The text describing this error.
    pub fn message(&self) -> (s: String)
        ensures
            s@ == quad_error_text(*self),
    {
        match self {
            GlyphQuadError::ZeroDimension => "glyph quad dimensions must be non-zero".to_owned(),
            GlyphQuadError::IndexCountTooLarge => "glyph quad count is too large for u32 GPU indices".to_owned(),
            GlyphQuadError::SlotOutsideAtlas { slot } => {
                let mut s = "glyph atlas slot ".to_owned();
                append_decimal(&mut s, *slot as u64);
                append_str(&mut s, " is outside the configured atlas image");
                s
            },
        }
    }
}

/// One textured glyph quad derived from a planned glyph.
#[derive(Debug, Clone, PartialEq, Eq)]
pub struct GlyphQuad {
    /// Full terminal cell text represented by this quad.
    pub text: String,
    /// Character represented by this quad.
    pub ch: char,
    /// Atlas entry sampled by this quad.
    pub atlas_entry: GlyphEntry,
    /// Left edge on the target, in pixels.
    pub x0: u64,
    /// Top edge on the target, in pixels.
    pub y0: u64,
    /// Right edge on the target, in pixels.
    pub x1: u64,
    /// Bottom edge on the target, in pixels.
    pub y1: u64,
    /// Left edge of the sampled atlas slot, in pixels.
    pub atlas_x0: u32,
    /// Top edge of the sampled atlas slot, in pixels.
    pub atlas_y0: u32,
    /// Right edge of the sampled atlas slot, in pixels.
    pub atlas_x1: u32,
    /// Bottom edge of the sampled atlas slot, in pixels.
    pub atlas_y1: u32,
}

/// Mathematical value of a glyph quad.
pub ghost struct GlyphQuadModel {
    /// Cell text.
    pub text: Seq<char>,
    /// Drawn character.
    pub ch: char,
    /// Sampled atlas entry.
    pub atlas_entry: GlyphEntry,
    /// Target rectangle: left, top, right, bottom.
    pub x0: int,
    /// Top edge.
    pub y0: int,
    /// Right edge.
    pub x1: int,
    /// Bottom edge.
    pub y1: int,
    /// Atlas rectangle: left, top, right, bottom.
    pub atlas_x0: int,
    /// Top atlas edge.
    pub atlas_y0: int,
    /// Right atlas edge.
    pub atlas_x1: int,
    /// Bottom atlas edge.
    pub atlas_y1: int,
}

impl View for GlyphQuad {
    type V = GlyphQuadModel;

    open spec fn view(&self) -> GlyphQuadModel {
        GlyphQuadModel {
            text: self.text@,
            ch: self.ch,
            atlas_entry: self.atlas_entry,
            x0: self.x0 as int,
            y0: self.y0 as int,
            x1: self.x1 as int,
            y1: self.y1 as int,
            atlas_x0: self.atlas_x0 as int,
            atlas_y0: self.atlas_y0 as int,
            atlas_x1: self.atlas_x1 as int,
            atlas_y1: self.atlas_y1 as int,
        }
    }
}

/// Indexed glyph quad batch ready for GPU vertex/index buffer upload.
#[derive(Debug, Clone, PartialEq, Eq)]
pub struct GlyphQuadBatch {
    /// Textured glyph quads.
    pub quads: Vec<GlyphQuad>,
    /// Triangle indices for all quads.
    pub indices: Vec<u32>,
}

/// Deterministic CPU-side planner for terminal glyph draw quads.
#[derive(Debug, Clone, Copy, PartialEq, Eq, Structural)]
pub struct GlyphQuadPlanner {
    config: GlyphQuadConfig,
}

/// Some dimension of the layout is zero.
pub open spec fn has_zero_dimension(c: GlyphQuadConfig) -> bool {
    ||| c.cell_width_px == 0
    ||| c.cell_height_px == 0
    ||| c.atlas_slot_width_px == 0
    ||| c.atlas_slot_height_px == 0
    ||| c.atlas_columns == 0
    ||| c.atlas_width_px == 0
    ||| c.atlas_height_px == 0
}

/// Left edge, in atlas pixels, of atlas slot `slot`.
pub open spec fn slot_left(c: GlyphQuadConfig, slot: u32) -> int {
    (slot % c.atlas_columns) as int * c.atlas_slot_width_px as int
}

/// Top edge, in atlas pixels, of atlas slot `slot`.
pub open spec fn slot_top(c: GlyphQuadConfig, slot: u32) -> int {
    (slot / c.atlas_columns) as int * c.atlas_slot_height_px as int
}

/// Atlas slot `slot` does not lie wholly inside the atlas texture.
pub open spec fn slot_outside(c: GlyphQuadConfig, slot: u32) -> bool {
    ||| slot_left(c, slot) + c.atlas_slot_width_px > c.atlas_width_px
    ||| slot_top(c, slot) + c.atlas_slot_height_px > c.atlas_height_px
}

/// The quad drawn for glyph `g`: it covers the glyph's cell (two cells for a
/// wide glyph) and samples its atlas slot; the slot must lie inside the atlas.
pub open spec fn glyph_quad(c: GlyphQuadConfig, g: PlannedGlyphModel) -> Result<GlyphQuadModel, GlyphQuadError> {
    if slot_outside(c, g.atlas_entry.slot) {
        Err(GlyphQuadError::SlotOutsideAtlas { slot: g.atlas_entry.slot })
    } else {
        let x0 = g.col as int * c.cell_width_px as int;
        let y0 = g.row as int * c.cell_height_px as int;
        let cells: int = if g.is_wide { 2 } else { 1 };
        Ok(GlyphQuadModel {
            text: g.text,
            ch: g.ch,
            atlas_entry: g.atlas_entry,
            x0,
            y0,
            x1: x0 + c.cell_width_px as int * cells,
            y1: y0 + c.cell_height_px as int,
            atlas_x0: slot_left(c, g.atlas_entry.slot),
            atlas_y0: slot_top(c, g.atlas_entry.slot),
            atlas_x1: slot_left(c, g.atlas_entry.slot) + c.atlas_slot_width_px as int,
            atlas_y1: slot_top(c, g.atlas_entry.slot) + c.atlas_slot_height_px as int,
        })
    }
}

/// Largest number of quads whose vertices `u32` indices can address.
pub open spec fn max_quads() -> int {
    u32::MAX as int / 4 + 1
}

/// Quads for `glyphs`, in order, stopping at the first glyph that fails.
pub open spec fn glyph_quads(c: GlyphQuadConfig, glyphs: Seq<PlannedGlyphModel>) -> Result<Seq<GlyphQuadModel>, GlyphQuadError>
    decreases glyphs.len(),
{
    if glyphs.len() == 0 {
        Ok(Seq::empty())
    } else {
        match glyph_quads(c, glyphs.drop_last()) {
            Err(e) => Err(e),
            Ok(quads) => match glyph_quad(c, glyphs.last()) {
                Err(e) => Err(e),
                Ok(q) => if quads.len() >= max_quads() {
                    Err(GlyphQuadError::IndexCountTooLarge)
                } else {
                    Ok(quads.push(q))
                },
            },
        }
    }
}

/// The outcome of planning quads for `glyphs` with layout `c`.
pub open spec fn batch_outcome(c: GlyphQuadConfig, glyphs: Seq<PlannedGlyphModel>) -> Result<Seq<GlyphQuadModel>, GlyphQuadError> {
    if has_zero_dimension(c) {
        Err(GlyphQuadError::ZeroDimension)
    } else if glyphs.len() * 6 > usize::MAX {
        Err(GlyphQuadError::IndexCountTooLarge)
    } else {
        glyph_quads(c, glyphs)
    }
}

/// Two triangles per quad: quad `k` draws vertices `4k, 4k+1, 4k+2` and `4k, 4k+2, 4k+3`.
pub open spec fn quad_indices(indices: Seq<u32>, quads: nat) -> bool {
    &&& indices.len() == 6 * quads
    &&& forall|k: int|
        0 <= k < quads ==> {
            &&& #[trigger] indices[6 * k] == 4 * k
            &&& indices[6 * k + 1] == 4 * k + 1
            &&& indices[6 * k + 2] == 4 * k + 2
            &&& indices[6 * k + 3] == 4 * k
            &&& indices[6 * k + 4] == 4 * k + 2
            &&& indices[6 * k + 5] == 4 * k + 3
        }
}

/// First vertex index of quad `quad_index`, if it fits in a `u32` index.
pub fn checked_glyph_quad_base_index(quad_index: usize) -> (r: Result<u32, GlyphQuadError>)
    ensures
        quad_index < max_quads() ==> r == Ok::<u32, GlyphQuadError>((4 * quad_index) as u32),
        quad_index >= max_quads() ==> r == Err::<u32, GlyphQuadError>(GlyphQuadError::IndexCountTooLarge),
{
    if quad_index > 1073741823 {
        return Err(GlyphQuadError::IndexCountTooLarge);
    }
    let index: u32 = quad_index as u32;
    Ok(index * 4)
}

/// Number of indices for `quad_count` quads, if it fits in a `usize`.
pub fn checked_glyph_quad_index_capacity(quad_count: usize) -> (r: Result<usize, GlyphQuadError>)
    ensures
        quad_count * 6 <= usize::MAX ==> r == Ok::<usize, GlyphQuadError>((quad_count * 6) as usize),
        quad_count * 6 > usize::MAX ==> r == Err::<usize, GlyphQuadError>(GlyphQuadError::IndexCountTooLarge),
{
    match quad_count.checked_mul(6) {
        Some(n) => Ok(n),
        None => Err(GlyphQuadError::IndexCountTooLarge),
    }
}

impl GlyphQuadPlanner {
    /// The layout quads are planned with.
    pub closed spec fn layout(&self) -> GlyphQuadConfig {
        self.config
    }

    /// Create a glyph quad planner.
    pub fn new(config: GlyphQuadConfig) -> (p: Self)
        ensures
            p.layout() == config,
    {
        Self { config }
    }

    /// Build textured quads and triangle indices from a render plan.
    pub fn plan(&self, plan: &RenderPlan) -> (r: Result<GlyphQuadBatch, GlyphQuadError>)
        ensures
            match r {
                Ok(batch) => {
                    &&& batch_outcome(self.layout(), plan.glyphs@.map_values(|g: PlannedGlyph| g@))
                        == Ok::<Seq<GlyphQuadModel>, GlyphQuadError>(batch.quads@.map_values(|q: GlyphQuad| q@))
                    &&& quad_indices(batch.indices@, batch.quads@.len())
                },
                Err(e) => batch_outcome(self.layout(), plan.glyphs@.map_values(|g: PlannedGlyph| g@))
                    == Err::<Seq<GlyphQuadModel>, GlyphQuadError>(e),
            },
    {
        let ghost glyphs = plan.glyphs@.map_values(|g: PlannedGlyph| g@);
        if self.has_zero_dimension() {
            return Err(GlyphQuadError::ZeroDimension);
        }
        let _capacity = checked_glyph_quad_index_capacity(plan.glyphs.len())?;
        let mut quads: Vec<GlyphQuad> = Vec::new();
        let mut indices: Vec<u32> = Vec::new();
        let mut i: usize = 0;
        proof {
            assert(glyphs.subrange(0, 0) =~= Seq::<PlannedGlyphModel>::empty());
            assert(quads@.map_values(|q: GlyphQuad| q@) =~= Seq::<GlyphQuadModel>::empty());
        }
        while i < plan.glyphs.len()
            invariant
                i <= plan.glyphs@.len(),
                glyphs == plan.glyphs@.map_values(|g: PlannedGlyph| g@),
                !has_zero_dimension(self.layout()),
                plan.glyphs@.len() * 6 <= usize::MAX,
                quads@.len() == i,
                glyph_quads(self.layout(), glyphs.subrange(0, i as int))
                    == Ok::<Seq<GlyphQuadModel>, GlyphQuadError>(quads@.map_values(|q: GlyphQuad| q@)),
                quad_indices(indices@, i as nat),
            decreases plan.glyphs@.len() - i,
        {
            proof {
                assert(glyphs.subrange(0, i + 1).drop_last() =~= glyphs.subrange(0, i as int));
                assert(glyphs.subrange(0, i + 1).last() == glyphs[i as int]);
                assert(glyphs[i as int] == plan.glyphs@[i as int]@);
            }
            let quad = match self.plan_glyph(&plan.glyphs[i]) {
                Ok(q) => q,
                Err(e) => {
                    proof {
                        lemma_glyph_quads_error_sticks(self.layout(), glyphs, i as int + 1);
                    }
                    return Err(e);
                },
            };
            let base = match checked_glyph_quad_base_index(i) {
                Ok(b) => b,
                Err(e) => {
                    proof {
                        lemma_glyph_quads_error_sticks(self.layout(), glyphs, i as int + 1);
                    }
                    return Err(e);
                },
            };
            let ghost old_indices = indices@;
            let ghost old_quads = quads@;
            indices.push(base);
            indices.push(base + 1);
            indices.push(base + 2);
            indices.push(base);
            indices.push(base + 2);
            indices.push(base + 3);
            quads.push(quad);
            proof {
                assert(quads@.map_values(|q: GlyphQuad| q@) =~= old_quads.map_values(|q: GlyphQuad| q@).push(quad@));
                assert forall|k: int| 0 <= k < i + 1 implies {
                    &&& #[trigger] indices@[6 * k] == 4 * k
                    &&& indices@[6 * k + 1] == 4 * k + 1
                    &&& indices@[6 * k + 2] == 4 * k + 2
                    &&& indices@[6 * k + 3] == 4 * k
                    &&& indices@[6 * k + 4] == 4 * k + 2
                    &&& indices@[6 * k + 5] == 4 * k + 3
                } by {
                    if k < i {
                        assert(old_indices[6 * k] == 4 * k);
                    }
                }
            }
            i = i + 1;
        }
        proof {
            assert(glyphs.subrange(0, plan.glyphs@.len() as int) =~= glyphs);
        }
        Ok(GlyphQuadBatch { quads, indices })
    }

    fn has_zero_dimension(&self) -> (r: bool)
        ensures
            r == has_zero_dimension(self.layout()),
    {
        self.config.cell_width_px == 0 || self.config.cell_height_px == 0 || self.config.atlas_slot_width_px == 0
            || self.config.atlas_slot_height_px == 0 || self.config.atlas_columns == 0
            || self.config.atlas_width_px == 0 || self.config.atlas_height_px == 0
    }

    fn plan_glyph(&self, glyph: &PlannedGlyph) -> (r: Result<GlyphQuad, GlyphQuadError>)
        requires
            !has_zero_dimension(self.layout()),
        ensures
            match r {
                Ok(q) => glyph_quad(self.layout(), glyph@) == Ok::<GlyphQuadModel, GlyphQuadError>(q@),
                Err(e) => glyph_quad(self.layout(), glyph@) == Err::<GlyphQuadModel, GlyphQuadError>(e),
            },
    {
        let c = self.config;
        let slot = glyph.atlas_entry.slot;
        let slot_col = slot % c.atlas_columns;
        let slot_row = slot / c.atlas_columns;
        let atlas_x0 = match slot_col.checked_mul(c.atlas_slot_width_px) {
            Some(v) => v,
            None => return Err(GlyphQuadError::SlotOutsideAtlas { slot }),
        };
        let atlas_y0 = match slot_row.checked_mul(c.atlas_slot_height_px) {
            Some(v) => v,
            None => return Err(GlyphQuadError::SlotOutsideAtlas { slot }),
        };
        let atlas_x1 = match atlas_x0.checked_add(c.atlas_slot_width_px) {
            Some(v) => v,
            None => return Err(GlyphQuadError::SlotOutsideAtlas { slot }),
        };
        let atlas_y1 = match atlas_y0.checked_add(c.atlas_slot_height_px) {
            Some(v) => v,
            None => return Err(GlyphQuadError::SlotOutsideAtlas { slot }),
        };
        if atlas_x1 > c.atlas_width_px || atlas_y1 > c.atlas_height_px {
            return Err(GlyphQuadError::SlotOutsideAtlas { slot });
        }
        let cell_width = c.cell_width_px as u64;
        let cell_height = c.cell_height_px as u64;
        assert(glyph.col as int * cell_width <= 0xffff * 0xffff_ffff) by (nonlinear_arith)
            requires glyph.col <= 0xffff, cell_width <= 0xffff_ffff;
        assert(glyph.row as int * cell_height <= 0xffff * 0xffff_ffff) by (nonlinear_arith)
            requires glyph.row <= 0xffff, cell_height <= 0xffff_ffff;
        let x0 = glyph.col as u64 * cell_width;
        let y0 = glyph.row as u64 * cell_height;
        let width = if glyph.is_wide { cell_width * 2 } else { cell_width };
        Ok(GlyphQuad {
            text: glyph.text.clone(),
            ch: glyph.ch,
            atlas_entry: glyph.atlas_entry,
            x0,
            y0,
            x1: x0 + width,
            y1: y0 + cell_height,
            atlas_x0,
            atlas_y0,
            atlas_x1,
            atlas_y1,
        })
    }
}

/// Once the quads for a prefix fail, the quads for every longer prefix fail the same way.
proof fn lemma_glyph_quads_error_sticks(c: GlyphQuadConfig, glyphs: Seq<PlannedGlyphModel>, n: int)
    requires
        0 < n <= glyphs.len(),
        glyph_quads(c, glyphs.subrange(0, n)) is Err,
    ensures
        glyph_quads(c, glyphs) == glyph_quads(c, glyphs.subrange(0, n)),
    decreases glyphs.len() - n,
{
    if n < glyphs.len() {
        assert(glyphs.subrange(0, n + 1).drop_last() =~= glyphs.subrange(0, n));
        lemma_glyph_quads_error_sticks(c, glyphs, n + 1);
    } else {
        assert(glyphs.subrange(0, n) =~= glyphs);
    }
}

} // verus!
