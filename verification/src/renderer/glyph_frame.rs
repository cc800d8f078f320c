//! Owned glyph frames prepared for presentation on a native surface: the
//! packed glyph atlas, the textured glyph quads laid out with cell spacing and
//! surface padding, and the frame size.

use vstd::prelude::*;

use crate::renderer::atlas::GlyphEntry;
use crate::renderer::image::message::image_error_text;
use crate::renderer::image::packing::{max_slot, pack_outcome};
use crate::renderer::image::placement::slot_extent;
use crate::renderer::image::{GlyphAtlasImage, GlyphBitmap};
use crate::renderer::plan::planner::PlannedGlyphModel;
use crate::renderer::plan::types::{PlannedGlyph, RenderPlan};
use crate::renderer::prepared_frame::{
    atlas_columns_for_glyphs, checked_surface_frame_pixel_dimension, frame_pixels, is_square_columns,
    transparent_glyph_atlas,
};
use crate::renderer::quads::{
    batch_outcome, quad_error_text, quad_indices, GlyphQuad, GlyphQuadBatch, GlyphQuadConfig, GlyphQuadModel,
    GlyphQuadPlanner,
};
use crate::renderer::surface_frame::{frame_error_text, invalid_frame, is_invalid_frame, SurfaceFrameError};
use crate::text::{append_decimal, append_str, decimal};

verus! {

/// Visual metrics used to prepare a surface glyph frame.
#[derive(Debug, Clone, Copy, PartialEq, Eq)]
pub struct PreparedSurfaceGlyphFrameConfig {
    /// Terminal column width in pixels.
    pub cell_width_px: u16,
    /// Terminal row height in pixels.
    pub line_height_px: u16,
    /// Cursor color in RGBA8.
    pub cursor_color_rgba8: [u8; 4],
    /// Empty space around rendered terminal cells in physical pixels.
    pub surface_padding_px: u16,
    /// Visual gap between adjacent rendered terminal cells in physical pixels.
    pub cell_spacing_px: u16,
}

/// Owned terminal glyph frame prepared for presentation to a native surface.
#[derive(Debug, Clone, PartialEq, Eq)]
pub struct PreparedSurfaceGlyphFrame {
    atlas: GlyphAtlasImage,
    batch: GlyphQuadBatch,
    width: u32,
    height: u32,
}

/// Some bitmap of `bitmaps` belongs to atlas entry `entry`.
pub open spec fn has_bitmap(bitmaps: Seq<GlyphBitmap>, entry: GlyphEntry) -> bool {
    exists|i: int| 0 <= i < bitmaps.len() && #[trigger] bitmaps[i].entry == entry
}

/// Entry of the first planned glyph that no bitmap was rasterized for.
pub open spec fn first_missing(planned: Seq<PlannedGlyphModel>, bitmaps: Seq<GlyphBitmap>) -> Option<GlyphEntry>
    decreases planned.len(),
{
    if planned.len() == 0 {
        None
    } else {
        match first_missing(planned.drop_last(), bitmaps) {
            Some(e) => Some(e),
            None => if has_bitmap(bitmaps, planned.last().atlas_entry) {
                None
            } else {
                Some(planned.last().atlas_entry)
            },
        }
    }
}

/// Message for a planned glyph whose bitmap is missing.
pub open spec fn missing_bitmap_text(entry: GlyphEntry) -> Seq<char> {
    "missing rasterized bitmap for atlas slot "@ + decimal(entry.slot as nat) + " generation "@ + decimal(
        entry.generation as nat,
    )
}

/// Slot width that holds every bitmap with its shaped placement, and at least one cell.
pub open spec fn slot_width_for(bitmaps: Seq<GlyphBitmap>, cell: u32) -> int
    decreases bitmaps.len(),
{
    if bitmaps.len() == 0 {
        cell as int
    } else {
        let rest = slot_width_for(bitmaps.drop_last(), cell);
        let w = slot_extent(bitmaps.last().origin_x, bitmaps.last().width, cell);
        if w > rest { w } else { rest }
    }
}

/// Slot height that holds every bitmap with its shaped placement, and at least one cell.
pub open spec fn slot_height_for(bitmaps: Seq<GlyphBitmap>, cell: u32) -> int
    decreases bitmaps.len(),
{
    if bitmaps.len() == 0 {
        cell as int
    } else {
        let rest = slot_height_for(bitmaps.drop_last(), cell);
        let h = slot_extent(bitmaps.last().origin_y, bitmaps.last().height, cell);
        if h > rest { h } else { rest }
    }
}

/// The error of the first bitmap that cannot be copied into a `tw` x `th` terminal slot.
pub open spec fn first_padding_error(bitmaps: Seq<GlyphBitmap>, tw: u32, th: u32) -> Option<crate::renderer::image::GlyphImageError>
    decreases bitmaps.len(),
{
    if bitmaps.len() == 0 {
        None
    } else {
        match first_padding_error(bitmaps.drop_last(), tw, th) {
            Some(e) => Some(e),
            None => bitmaps.last().terminal_slot_error(tw, th),
        }
    }
}

/// `a / b` rounded to the nearest integer, halves up.
pub open spec fn round_div(a: int, b: int) -> int {
    (2 * a + b) / (2 * b)
}

/// `v`, or `u64::MAX` when it is larger.
pub open spec fn clamp_u64(v: int) -> int {
    if v > u64::MAX { u64::MAX as int } else { v }
}

/// Quad `q` moved apart by `sp` pixels per cell gap: its column and row are
/// recovered from its position with cells `cw` pixels wide and the quad's own
/// height, its left edge moves by one gap per column before it, its right edge
/// also by the gaps it spans, and it moves down by one gap per row above it.
pub open spec fn spaced_quad(q: GlyphQuadModel, cw: int, sp: int) -> GlyphQuadModel {
    if sp == 0 || cw == 0 {
        q
    } else {
        let col = round_div(q.x0, cw);
        let covered = if q.x1 > q.x0 { q.x1 - q.x0 } else { 0 };
        let span = if round_div(covered, cw) >= 1 { round_div(covered, cw) } else { 1 };
        let height = if q.y1 - q.y0 >= 1 { q.y1 - q.y0 } else { 1 };
        let row = round_div(q.y0, height);
        GlyphQuadModel {
            x0: clamp_u64(q.x0 + col * sp),
            x1: clamp_u64(q.x1 + (col + span - 1) * sp),
            y0: clamp_u64(q.y0 + row * sp),
            y1: clamp_u64(q.y1 + row * sp),
            ..q
        }
    }
}

/// Quad `q` moved right and down by the surface padding `pad`.
pub open spec fn padded_quad(q: GlyphQuadModel, pad: int) -> GlyphQuadModel {
    GlyphQuadModel {
        x0: clamp_u64(q.x0 + pad),
        x1: clamp_u64(q.x1 + pad),
        y0: clamp_u64(q.y0 + pad),
        y1: clamp_u64(q.y1 + pad),
        ..q
    }
}

/// Quad `q` as placed on the surface.
pub open spec fn placed_quad(q: GlyphQuadModel, config: PreparedSurfaceGlyphFrameConfig) -> GlyphQuadModel {
    padded_quad(spaced_quad(q, config.cell_width_px as int, config.cell_spacing_px as int), config.surface_padding_px as int)
}

/// What planning the glyph quads gives, once the atlas is known: the frame
/// holds the atlas and the planned quads as placed on the surface.
pub open spec fn prepared_quads_outcome(
    planned: Seq<PlannedGlyphModel>,
    config: PreparedSurfaceGlyphFrameConfig,
    sw: int,
    sh: int,
    columns: u32,
    atlas_width: u32,
    atlas_height: u32,
    atlas_rgba: Seq<u8>,
    occupied: int,
    width: int,
    height: int,
    r: Result<PreparedSurfaceGlyphFrame, SurfaceFrameError>,
) -> bool {
    let qc = GlyphQuadConfig {
        cell_width_px: config.cell_width_px as u32,
        cell_height_px: config.line_height_px as u32,
        atlas_slot_width_px: sw as u32,
        atlas_slot_height_px: sh as u32,
        atlas_columns: columns,
        atlas_width_px: atlas_width,
        atlas_height_px: atlas_height,
    };
    match batch_outcome(qc, planned) {
        Err(e) => r matches Err(fe) && is_invalid_frame(fe, quad_error_text(e)),
        Ok(quads) => r matches Ok(frame) && {
            &&& frame.frame_width() == width
            &&& frame.frame_height() == height
            &&& frame.atlas_image().width == atlas_width
            &&& frame.atlas_image().height == atlas_height
            &&& frame.atlas_image().rgba@ == atlas_rgba
            &&& frame.atlas_image().occupied_slots == occupied
            &&& frame.glyph_batch().quads@.map_values(|q: GlyphQuad| q@) == quads.map_values(
                |q: GlyphQuadModel| placed_quad(q, config),
            )
            &&& quad_indices(frame.glyph_batch().indices@, quads.len())
        },
    }
}

/// What preparing a frame for `plan` from the rasterized `bitmaps` gives.
pub open spec fn prepared_frame_outcome(
    plan: RenderPlan,
    bitmaps: Seq<GlyphBitmap>,
    config: PreparedSurfaceGlyphFrameConfig,
    r: Result<PreparedSurfaceGlyphFrame, SurfaceFrameError>,
) -> bool {
    let planned = plan.glyphs@.map_values(|g: PlannedGlyph| g@);
    let cw = config.cell_width_px as u32;
    let ch = config.line_height_px as u32;
    let sw = slot_width_for(bitmaps, cw);
    let sh = slot_height_for(bitmaps, ch);
    let width = frame_pixels(plan.viewport_cols, cw, config.surface_padding_px, config.cell_spacing_px);
    let height = frame_pixels(plan.viewport_rows, ch, config.surface_padding_px, config.cell_spacing_px);
    if planned.len() > 0 && bitmaps.len() == 0 {
        r matches Err(e) && is_invalid_frame(e, "surface glyph frame requires rasterized glyph bitmaps"@)
    } else if first_missing(planned, bitmaps) is Some {
        r matches Err(e) && is_invalid_frame(e, missing_bitmap_text(first_missing(planned, bitmaps)->0))
    } else if sw == 0 || sh == 0 {
        r matches Err(e) && is_invalid_frame(e, "surface frame cell dimensions must be non-zero"@)
    } else if width > u32::MAX {
        r matches Err(e) && is_invalid_frame(e, "surface glyph frame width"@ + " is too large to represent"@)
    } else if height > u32::MAX {
        r matches Err(e) && is_invalid_frame(e, "surface glyph frame height"@ + " is too large to represent"@)
    } else if first_padding_error(bitmaps, sw as u32, sh as u32) is Some {
        r matches Err(e) && is_invalid_frame(e, image_error_text(first_padding_error(bitmaps, sw as u32, sh as u32)->0))
    } else if bitmaps.len() == 0 {
        if sw * sh * 4 > u32::MAX {
            r matches Err(e) && is_invalid_frame(e, "invalid surface frame: "@ + "transparent glyph atlas is too large"@)
        } else {
            prepared_quads_outcome(
                planned,
                config,
                sw,
                sh,
                1,
                sw as u32,
                sh as u32,
                Seq::new((sw * sh * 4) as nat, |i: int| 0u8),
                0,
                width,
                height,
                r,
            )
        }
    } else {
        exists|padded: Seq<GlyphBitmap>, columns: u32, atlas: Result<GlyphAtlasImage, crate::renderer::image::GlyphImageError>|
            #![trigger pack_outcome(sw as u32, sh as u32, columns, padded, atlas)]
            {
                &&& padded.len() == bitmaps.len()
                &&& forall|i: int| 0 <= i < bitmaps.len() ==> #[trigger] bitmaps[i].terminal_slot_outcome(
                    sw as u32,
                    sh as u32,
                    Ok(padded[i]),
                )
                &&& is_square_columns(columns as int, max_slot(padded) + 1)
                &&& pack_outcome(sw as u32, sh as u32, columns, padded, atlas)
                &&& match atlas {
                    Err(e) => r matches Err(fe) && is_invalid_frame(fe, image_error_text(e)),
                    Ok(image) => prepared_quads_outcome(
                        planned,
                        config,
                        sw,
                        sh,
                        columns,
                        image.width,
                        image.height,
                        image.rgba@,
                        image.occupied_slots as int,
                        width,
                        height,
                        r,
                    ),
                }
            }
    }
}

proof fn lemma_first_missing_sticks(planned: Seq<PlannedGlyphModel>, bitmaps: Seq<GlyphBitmap>, n: int)
    requires
        0 <= n <= planned.len(),
        first_missing(planned.subrange(0, n), bitmaps) is Some,
    ensures
        first_missing(planned, bitmaps) == first_missing(planned.subrange(0, n), bitmaps),
    decreases planned.len() - n,
{
    if n < planned.len() {
        assert(planned.subrange(0, n + 1).drop_last() =~= planned.subrange(0, n));
        lemma_first_missing_sticks(planned, bitmaps, n + 1);
    } else {
        assert(planned.subrange(0, n) =~= planned);
    }
}

proof fn lemma_first_padding_error_sticks(bitmaps: Seq<GlyphBitmap>, tw: u32, th: u32, n: int)
    requires
        0 <= n <= bitmaps.len(),
        first_padding_error(bitmaps.subrange(0, n), tw, th) is Some,
    ensures
        first_padding_error(bitmaps, tw, th) == first_padding_error(bitmaps.subrange(0, n), tw, th),
    decreases bitmaps.len() - n,
{
    if n < bitmaps.len() {
        assert(bitmaps.subrange(0, n + 1).drop_last() =~= bitmaps.subrange(0, n));
        lemma_first_padding_error_sticks(bitmaps, tw, th, n + 1);
    } else {
        assert(bitmaps.subrange(0, n) =~= bitmaps);
    }
}

/// Whether some bitmap belongs to `entry`.
fn find_bitmap(bitmaps: &[GlyphBitmap], entry: GlyphEntry) -> (r: bool)
    ensures
        r == has_bitmap(bitmaps@, entry),
{
    let mut j: usize = 0;
    while j < bitmaps.len()
        invariant
            j <= bitmaps@.len(),
            forall|k: int| 0 <= k < j ==> bitmaps@[k].entry != entry,
        decreases bitmaps@.len() - j,
    {
        if bitmaps[j].entry == entry {
            return true;
        }
        j = j + 1;
    }
    false
}

/// Message naming the atlas entry whose bitmap is missing.
fn missing_bitmap_message(entry: GlyphEntry) -> (s: String)
    ensures
        s@ == missing_bitmap_text(entry),
{
    let mut s = "missing rasterized bitmap for atlas slot ".to_owned();
    append_decimal(&mut s, entry.slot as u64);
    append_str(&mut s, " generation ");
    append_decimal(&mut s, entry.generation);
    s
}

/// `v` as a `u64`, or `u64::MAX` when it is larger.
fn clamp_to_u64(v: u128) -> (r: u64)
    ensures
        r == clamp_u64(v as int),
{
    if v > 18446744073709551615u128 {
        18446744073709551615u64
    } else {
        v as u64
    }
}

/// `a / b` rounded to the nearest integer, halves up.
fn round_div_exec(a: u128, b: u128) -> (r: u128)
    requires
        b > 0,
        a <= u64::MAX,
        b <= u64::MAX,
    ensures
        r == round_div(a as int, b as int),
        r <= u64::MAX,
{
    assert((2 * a + b) / (2 * b) <= u64::MAX) by (nonlinear_arith)
        requires b > 0, a <= u64::MAX;
    (2 * a + b) / (2 * b)
}

/// `q` as placed on the surface.
fn place_quad(q: &GlyphQuad, config: PreparedSurfaceGlyphFrameConfig) -> (p: GlyphQuad)
    ensures
        p@ == placed_quad(q@, config),
{
    let cw: u128 = config.cell_width_px as u128;
    let sp: u128 = config.cell_spacing_px as u128;
    let pad: u128 = config.surface_padding_px as u128;
    let mut x0: u64 = q.x0;
    let mut x1: u64 = q.x1;
    let mut y0: u64 = q.y0;
    let mut y1: u64 = q.y1;
    if sp != 0 && cw != 0 {
        let col = round_div_exec(q.x0 as u128, cw);
        let covered: u128 = if q.x1 > q.x0 { (q.x1 - q.x0) as u128 } else { 0 };
        let rounded = round_div_exec(covered, cw);
        let span: u128 = if rounded >= 1 { rounded } else { 1 };
        let height: u128 = if q.y1 > q.y0 { (q.y1 - q.y0) as u128 } else { 1 };
        let row = round_div_exec(q.y0 as u128, height);
        assert(col * sp <= 0xffff_ffff_ffff_ffff * 0xffff) by (nonlinear_arith)
            requires col <= u64::MAX, sp <= 0xffff;
        assert((col + span - 1) * sp <= 0x1_ffff_ffff_ffff_ffff * 0xffff) by (nonlinear_arith)
            requires col <= u64::MAX, span <= u64::MAX, span >= 1, sp <= 0xffff;
        assert(row * sp <= 0xffff_ffff_ffff_ffff * 0xffff) by (nonlinear_arith)
            requires row <= u64::MAX, sp <= 0xffff;
        x0 = clamp_to_u64(q.x0 as u128 + col * sp);
        x1 = clamp_to_u64(q.x1 as u128 + (col + span - 1) * sp);
        y0 = clamp_to_u64(q.y0 as u128 + row * sp);
        y1 = clamp_to_u64(q.y1 as u128 + row * sp);
    }
    GlyphQuad {
        text: q.text.clone(),
        ch: q.ch,
        atlas_entry: q.atlas_entry,
        x0: clamp_to_u64(x0 as u128 + pad),
        y0: clamp_to_u64(y0 as u128 + pad),
        x1: clamp_to_u64(x1 as u128 + pad),
        y1: clamp_to_u64(y1 as u128 + pad),
        atlas_x0: q.atlas_x0,
        atlas_y0: q.atlas_y0,
        atlas_x1: q.atlas_x1,
        atlas_y1: q.atlas_y1,
    }
}

/// The quads of `batch` as placed on the surface, with the same indices.
fn place_batch(batch: GlyphQuadBatch, config: PreparedSurfaceGlyphFrameConfig) -> (placed: GlyphQuadBatch)
    ensures
        placed.quads@.map_values(|q: GlyphQuad| q@) == batch.quads@.map_values(|q: GlyphQuad| q@).map_values(
            |q: GlyphQuadModel| placed_quad(q, config),
        ),
        placed.indices@ == batch.indices@,
{
    let mut quads: Vec<GlyphQuad> = Vec::new();
    let mut i: usize = 0;
    while i < batch.quads.len()
        invariant
            i <= batch.quads@.len(),
            quads@.len() == i,
            forall|k: int| 0 <= k < i ==> (#[trigger] quads@[k])@ == placed_quad(batch.quads@[k]@, config),
        decreases batch.quads@.len() - i,
    {
        let q = place_quad(&batch.quads[i], config);
        quads.push(q);
        i = i + 1;
    }
    proof {
        assert(quads@.map_values(|q: GlyphQuad| q@) =~= batch.quads@.map_values(|q: GlyphQuad| q@).map_values(
            |q: GlyphQuadModel| placed_quad(q, config),
        ));
    }
    GlyphQuadBatch { quads, indices: batch.indices }
}

impl PreparedSurfaceGlyphFrame {
    /// Frame width in pixels.
    pub closed spec fn frame_width(&self) -> int {
        self.width as int
    }

    /// Frame height in pixels.
    pub closed spec fn frame_height(&self) -> int {
        self.height as int
    }

    /// Packed atlas image of the frame.
    pub closed spec fn atlas_image(&self) -> GlyphAtlasImage {
        self.atlas
    }

    /// Glyph quads of the frame.
    pub closed spec fn glyph_batch(&self) -> GlyphQuadBatch {
        self.batch
    }

    /// Packed atlas image for this frame.
    pub fn atlas(&self) -> (a: &GlyphAtlasImage)
        ensures
            *a == self.atlas_image(),
    {
        &self.atlas
    }

    /// Glyph quad batch for this frame.
    pub fn batch(&self) -> (b: &GlyphQuadBatch)
        ensures
            *b == self.glyph_batch(),
    {
        &self.batch
    }

    /// Frame width in pixels.
    pub fn width(&self) -> (w: u32)
        ensures
            w == self.frame_width(),
    {
        self.width
    }

    /// Frame height in pixels.
    pub fn height(&self) -> (h: u32)
        ensures
            h == self.frame_height(),
    {
        self.height
    }

    /// Build an owned presentable glyph frame from a render plan and the bitmaps
    /// rasterized for its glyphs: every planned glyph needs a bitmap; slots are
    /// sized to hold every bitmap's shaped placement and at least one cell; the
    /// bitmaps are packed into a square atlas grid (a transparent one-slot atlas
    /// when there are none); and the planned glyph quads are laid out with cell
    /// spacing and surface padding.
    pub fn from_render_plan(plan: &RenderPlan, glyphs: &[GlyphBitmap], config: PreparedSurfaceGlyphFrameConfig) -> (r: Result<Self, SurfaceFrameError>)
        ensures
            prepared_frame_outcome(*plan, glyphs@, config, r),
    {
        match check_bitmaps_present(plan, glyphs) {
            Ok(()) => {},
            Err(e) => return Err(e),
        }
        let cell_width_px: u32 = config.cell_width_px as u32;
        let cell_height_px: u32 = config.line_height_px as u32;
        let (slot_width, slot_height) = slot_size(glyphs, cell_width_px, cell_height_px);
        if slot_width == 0 || slot_height == 0 {
            return Err(invalid_frame("surface frame cell dimensions must be non-zero"));
        }
        let width = match checked_surface_frame_pixel_dimension(
            "surface glyph frame width",
            plan.viewport_cols,
            cell_width_px,
            config.surface_padding_px,
            config.cell_spacing_px,
        ) {
            Ok(w) => w,
            Err(e) => return Err(e),
        };
        let height = match checked_surface_frame_pixel_dimension(
            "surface glyph frame height",
            plan.viewport_rows,
            cell_height_px,
            config.surface_padding_px,
            config.cell_spacing_px,
        ) {
            Ok(h) => h,
            Err(e) => return Err(e),
        };
        let padded = match pad_bitmaps(glyphs, slot_width, slot_height) {
            Ok(p) => p,
            Err(e) => return Err(e),
        };
        let ghost planned = plan.glyphs@.map_values(|g: PlannedGlyph| g@);
        if padded.len() == 0 {
            let atlas = match transparent_glyph_atlas(slot_width, slot_height) {
                Ok(a) => a,
                Err(e) => return Err(SurfaceFrameError::InvalidFrame(e.message())),
            };
            Self::with_atlas(plan, config, slot_width, slot_height, 1, atlas, width, height)
        } else {
            let columns = atlas_columns_for_glyphs(padded.as_slice());
            let packed = GlyphAtlasImage::pack_rgba8(slot_width, slot_height, columns, padded.as_slice());
            let ghost packed_view = packed;
            let r = match packed {
                Ok(atlas) => Self::with_atlas(plan, config, slot_width, slot_height, columns, atlas, width, height),
                Err(e) => Err(SurfaceFrameError::InvalidFrame(e.message())),
            };
            proof {
                assert(pack_outcome(slot_width, slot_height, columns, padded@, packed_view));
            }
            r
        }
    }

    /// Plan the glyph quads against a known atlas and lay them out on the surface.
    fn with_atlas(
        plan: &RenderPlan,
        config: PreparedSurfaceGlyphFrameConfig,
        slot_width: u32,
        slot_height: u32,
        columns: u32,
        atlas: GlyphAtlasImage,
        width: u32,
        height: u32,
    ) -> (r: Result<Self, SurfaceFrameError>)
        ensures
            prepared_quads_outcome(
                plan.glyphs@.map_values(|g: PlannedGlyph| g@),
                config,
                slot_width as int,
                slot_height as int,
                columns,
                atlas.width,
                atlas.height,
                atlas.rgba@,
                atlas.occupied_slots as int,
                width as int,
                height as int,
                r,
            ),
    {
        let quad_config = GlyphQuadConfig {
            cell_width_px: config.cell_width_px as u32,
            cell_height_px: config.line_height_px as u32,
            atlas_slot_width_px: slot_width,
            atlas_slot_height_px: slot_height,
            atlas_columns: columns,
            atlas_width_px: atlas.width,
            atlas_height_px: atlas.height,
        };
        let batch = match GlyphQuadPlanner::new(quad_config).plan(plan) {
            Ok(b) => b,
            Err(e) => return Err(SurfaceFrameError::InvalidFrame(e.message())),
        };
        let placed = place_batch(batch, config);
        Ok(Self { atlas, batch: placed, width, height })
    }
}

/// Check that bitmaps were rasterized, and one for every planned glyph.
fn check_bitmaps_present(plan: &RenderPlan, glyphs: &[GlyphBitmap]) -> (r: Result<(), SurfaceFrameError>)
    ensures
        ({
            let planned = plan.glyphs@.map_values(|g: PlannedGlyph| g@);
            if planned.len() > 0 && glyphs@.len() == 0 {
                r matches Err(e) && is_invalid_frame(e, "surface glyph frame requires rasterized glyph bitmaps"@)
            } else if first_missing(planned, glyphs@) is Some {
                r matches Err(e) && is_invalid_frame(e, missing_bitmap_text(first_missing(planned, glyphs@)->0))
            } else {
                r is Ok
            }
        }),
{
    let ghost planned = plan.glyphs@.map_values(|g: PlannedGlyph| g@);
    if plan.glyphs.len() > 0 && glyphs.len() == 0 {
        return Err(invalid_frame("surface glyph frame requires rasterized glyph bitmaps"));
    }
    let mut i: usize = 0;
    proof {
        assert(planned.subrange(0, 0) =~= Seq::<PlannedGlyphModel>::empty());
    }
    while i < plan.glyphs.len()
        invariant
            i <= plan.glyphs@.len(),
            planned == plan.glyphs@.map_values(|g: PlannedGlyph| g@),
            !(plan.glyphs@.len() > 0 && glyphs@.len() == 0),
            first_missing(planned.subrange(0, i as int), glyphs@) is None,
        decreases plan.glyphs@.len() - i,
    {
        let entry = plan.glyphs[i].atlas_entry;
        proof {
            assert(planned.subrange(0, i + 1).drop_last() =~= planned.subrange(0, i as int));
            assert(planned.subrange(0, i + 1).last() == planned[i as int]);
            assert(planned[i as int].atlas_entry == entry);
        }
        if !find_bitmap(glyphs, entry) {
            proof {
                lemma_first_missing_sticks(planned, glyphs@, i + 1);
            }
            return Err(SurfaceFrameError::InvalidFrame(missing_bitmap_message(entry)));
        }
        i = i + 1;
    }
    proof {
        assert(planned.subrange(0, planned.len() as int) =~= planned);
    }
    Ok(())
}

/// Slot width and height holding every bitmap's shaped placement and at least one cell.
fn slot_size(glyphs: &[GlyphBitmap], cell_width_px: u32, cell_height_px: u32) -> (r: (u32, u32))
    ensures
        r.0 == slot_width_for(glyphs@, cell_width_px),
        r.1 == slot_height_for(glyphs@, cell_height_px),
{
    let mut slot_width: u32 = cell_width_px;
    let mut slot_height: u32 = cell_height_px;
    let mut j: usize = 0;
    while j < glyphs.len()
        invariant
            j <= glyphs@.len(),
            slot_width == slot_width_for(glyphs@.subrange(0, j as int), cell_width_px),
            slot_height == slot_height_for(glyphs@.subrange(0, j as int), cell_height_px),
        decreases glyphs@.len() - j,
    {
        proof {
            assert(glyphs@.subrange(0, j + 1).drop_last() =~= glyphs@.subrange(0, j as int));
        }
        let w = glyphs[j].terminal_slot_width(cell_width_px);
        let h = glyphs[j].terminal_slot_height(cell_height_px);
        if w > slot_width {
            slot_width = w;
        }
        if h > slot_height {
            slot_height = h;
        }
        j = j + 1;
    }
    proof {
        assert(glyphs@.subrange(0, glyphs@.len() as int) =~= glyphs@);
    }
    (slot_width, slot_height)
}

/// Copy every bitmap into a `slot_width` x `slot_height` terminal slot.
fn pad_bitmaps(glyphs: &[GlyphBitmap], slot_width: u32, slot_height: u32) -> (r: Result<Vec<GlyphBitmap>, SurfaceFrameError>)
    ensures
        match first_padding_error(glyphs@, slot_width, slot_height) {
            Some(e) => r matches Err(fe) && is_invalid_frame(fe, image_error_text(e)),
            None => r matches Ok(padded) && {
                &&& padded@.len() == glyphs@.len()
                &&& forall|m: int| 0 <= m < glyphs@.len() ==> #[trigger] glyphs@[m].terminal_slot_outcome(
                    slot_width,
                    slot_height,
                    Ok(padded@[m]),
                )
                &&& max_slot(padded@) == max_slot(glyphs@)
            },
        },
{
    let mut padded: Vec<GlyphBitmap> = Vec::new();
    let mut k: usize = 0;
    proof {
        assert(glyphs@.subrange(0, 0) =~= Seq::<GlyphBitmap>::empty());
        assert(padded@ =~= Seq::<GlyphBitmap>::empty());
    }
    while k < glyphs.len()
        invariant
            k <= glyphs@.len(),
            padded@.len() == k,
            first_padding_error(glyphs@.subrange(0, k as int), slot_width, slot_height) is None,
            forall|m: int| 0 <= m < k ==> #[trigger] glyphs@[m].terminal_slot_outcome(
                slot_width,
                slot_height,
                Ok(padded@[m]),
            ),
            max_slot(padded@) == max_slot(glyphs@.subrange(0, k as int)),
        decreases glyphs@.len() - k,
    {
        proof {
            assert(glyphs@.subrange(0, k + 1).drop_last() =~= glyphs@.subrange(0, k as int));
            assert(glyphs@.subrange(0, k + 1).last() == glyphs@[k as int]);
        }
        match glyphs[k].padded_to_terminal_slot(slot_width, slot_height) {
            Ok(g) => {
                let ghost before = padded@;
                padded.push(g);
                proof {
                    assert(padded@.drop_last() =~= before);
                }
            },
            Err(e) => {
                proof {
                    lemma_first_padding_error_sticks(glyphs@, slot_width, slot_height, k + 1);
                }
                return Err(SurfaceFrameError::InvalidFrame(e.message()));
            },
        }
        k = k + 1;
    }
    proof {
        assert(glyphs@.subrange(0, glyphs@.len() as int) =~= glyphs@);
    }
    Ok(padded)
}

} // verus!
