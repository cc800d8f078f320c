//! Solid and padded glyph bitmaps.

use vstd::prelude::*;

use crate::renderer::image::rgba::{image_bytes, rgba_byte_len, rgba_pixel_count, rgba_row_byte_len, zeroed_rgba_buffer};
use crate::renderer::image::{is_placed_image, placed_rgba, GlyphBitmap, GlyphImageError};
use crate::renderer::atlas::GlyphEntry;

verus! {

/// The error, if any, that padding a `w` x `h` glyph holding `len` bytes into a
/// larger `tw` x `th` transparent bitmap runs into once the target is known to fit.
pub open spec fn padding_error(w: int, h: int, len: int, slot: u32, tw: int, th: int) -> Option<GlyphImageError> {
    if tw * 4 > usize::MAX {
        Some(GlyphImageError::RgbaRowDimensionsTooLarge)
    } else if image_bytes(w, h) > usize::MAX {
        Some(GlyphImageError::RgbaImageDimensionsTooLarge)
    } else if len != image_bytes(w, h) {
        Some(GlyphImageError::InvalidPaddingSourceLength { slot, expected_len: image_bytes(w, h) as usize })
    } else if image_bytes(tw, th) > usize::MAX {
        Some(GlyphImageError::RgbaImageDimensionsTooLarge)
    } else {
        None
    }
}

/// `s` repeats the four bytes of `pixel` for every one of its `count` pixels.
pub open spec fn is_solid(s: Seq<u8>, pixel: [u8; 4], count: int) -> bool {
    &&& s.len() == count * 4
    &&& forall|i: int| 0 <= i < s.len() ==> #[trigger] s[i] == pixel[i % 4]
}

impl GlyphBitmap {
    /// Try to build a solid RGBA8 glyph bitmap without panicking on oversized dimensions.
    pub fn try_solid_rgba8(entry: GlyphEntry, width: u32, height: u32, rgba: [u8; 4]) -> (r: Result<Self, GlyphImageError>)
        ensures
            image_bytes(width as int, height as int) <= usize::MAX <==> r is Ok,
            r is Err ==> r == Err::<Self, GlyphImageError>(GlyphImageError::RgbaImageDimensionsTooLarge),
            r matches Ok(g) ==> {
                &&& g.entry == entry
                &&& g.origin_x == 0
                &&& g.origin_y == 0
                &&& g.width == width
                &&& g.height == height
                &&& is_solid(g.rgba@, rgba, width * height)
            },
    {
        let pixel_count = rgba_pixel_count(width, height)?;
        let byte_len = rgba_byte_len(width, height)?;
        let mut pixels: Vec<u8> = Vec::with_capacity(byte_len);
        let mut i: usize = 0;
        while i < pixel_count
            invariant
                0 <= i <= pixel_count,
                pixel_count * 4 == byte_len,
                pixels@.len() == i * 4,
                forall|k: int| 0 <= k < pixels@.len() ==> #[trigger] pixels@[k] == rgba[k % 4],
            decreases pixel_count - i,
        {
            let ghost before = pixels@;
            pixels.push(rgba[0]);
            pixels.push(rgba[1]);
            pixels.push(rgba[2]);
            pixels.push(rgba[3]);
            proof {
                assert forall|k: int| 0 <= k < pixels@.len() implies #[trigger] pixels@[k] == rgba[k % 4] by {
                    if k >= before.len() {
                        assert(k - i * 4 == k % 4) by (nonlinear_arith)
                            requires i * 4 <= k < i * 4 + 4;
                    }
                }
            }
            i = i + 1;
        }
        Ok(GlyphBitmap { entry, origin_x: 0, origin_y: 0, width, height, rgba: pixels })
    }

    /// Build a solid RGBA8 glyph bitmap for deterministic renderer tests.
    pub fn solid_rgba8(entry: GlyphEntry, width: u32, height: u32, rgba: [u8; 4]) -> (g: Self)
        requires
            image_bytes(width as int, height as int) <= usize::MAX,
        ensures
            g.entry == entry,
            g.origin_x == 0,
            g.origin_y == 0,
            g.width == width,
            g.height == height,
            is_solid(g.rgba@, rgba, width * height),
    {
        match Self::try_solid_rgba8(entry, width, height, rgba) {
            Ok(g) => g,
            Err(_) => {
                proof {
                    assert(false);
                }
                GlyphBitmap { entry, origin_x: 0, origin_y: 0, width, height, rgba: Vec::new() }
            },
        }
    }

    /// A copy of this bitmap with the same entry, origin, size and pixels.
    pub fn duplicate(&self) -> (g: Self)
        ensures
            g.entry == self.entry,
            g.origin_x == self.origin_x,
            g.origin_y == self.origin_y,
            g.width == self.width,
            g.height == self.height,
            g.rgba@ == self.rgba@,
    {
        let rgba = self.rgba.clone();
        proof {
            assert(rgba@ =~= self.rgba@);
        }
        GlyphBitmap {
            entry: self.entry,
            origin_x: self.origin_x,
            origin_y: self.origin_y,
            width: self.width,
            height: self.height,
            rgba,
        }
    }

    /// Copies this glyph into a transparent `target_width` x `target_height`
    /// bitmap at (`target_x`, `target_y`), after the fit has been checked.
    pub(crate) fn place_checked(&self, target_width: u32, target_height: u32, target_x: u32, target_y: u32) -> (r: Result<Self, GlyphImageError>)
        requires
            target_x + self.width <= target_width,
            target_y + self.height <= target_height,
        ensures
            match padding_error(self.width as int, self.height as int, self.rgba@.len() as int, self.entry.slot, target_width as int, target_height as int) {
                Some(e) => r == Err::<Self, GlyphImageError>(e),
                None => r matches Ok(g) && {
                    &&& g.entry == self.entry
                    &&& g.origin_x == 0
                    &&& g.origin_y == 0
                    &&& g.width == target_width
                    &&& g.height == target_height
                    &&& is_placed_image(g.rgba@, self.rgba@, self.width as int, self.height as int, target_width as int, target_height as int, target_x as int, target_y as int)
                },
            },
    {
        let _source_row_bytes = rgba_row_byte_len(self.width)?;
        let _target_row_bytes = rgba_row_byte_len(target_width)?;
        let _target_x_bytes = rgba_row_byte_len(target_x)?;
        let expected_source_len = rgba_byte_len(self.width, self.height)?;
        if self.rgba.len() != expected_source_len {
            return Err(GlyphImageError::InvalidPaddingSourceLength { slot: self.entry.slot, expected_len: expected_source_len });
        }
        let _zeroed = zeroed_rgba_buffer(target_width, target_height)?;
        let rgba = placed_rgba(&self.rgba, self.width, self.height, target_width, target_height, target_x, target_y);
        Ok(GlyphBitmap { entry: self.entry, origin_x: 0, origin_y: 0, width: target_width, height: target_height, rgba })
    }

    /// Return this glyph copied into the optical center of a larger transparent bitmap.
    pub fn padded_to(&self, target_width: u32, target_height: u32) -> (r: Result<Self, GlyphImageError>)
        ensures
            target_width < self.width || target_height < self.height ==> r == Err::<Self, GlyphImageError>(
                GlyphImageError::PaddingTargetTooSmall {
                    target_width,
                    target_height,
                    glyph_width: self.width,
                    glyph_height: self.height,
                },
            ),
            !(target_width < self.width || target_height < self.height) && self.width == target_width
                && self.height == target_height ==> (r matches Ok(g) && {
                &&& g.entry == self.entry
                &&& g.origin_x == self.origin_x
                &&& g.origin_y == self.origin_y
                &&& g.width == self.width
                &&& g.height == self.height
                &&& g.rgba@ == self.rgba@
            }),
            !(target_width < self.width || target_height < self.height) && !(self.width == target_width
                && self.height == target_height) ==> match padding_error(self.width as int, self.height as int, self.rgba@.len() as int, self.entry.slot, target_width as int, target_height as int) {
                Some(e) => r == Err::<Self, GlyphImageError>(e),
                None => r matches Ok(g) && {
                    &&& g.entry == self.entry
                    &&& g.origin_x == 0
                    &&& g.origin_y == 0
                    &&& g.width == target_width
                    &&& g.height == target_height
                    &&& is_placed_image(g.rgba@, self.rgba@, self.width as int, self.height as int, target_width as int, target_height as int, (target_width - self.width) / 2, (target_height - self.height) / 2)
                },
            },
    {
        if target_width < self.width || target_height < self.height {
            return Err(GlyphImageError::PaddingTargetTooSmall {
                target_width,
                target_height,
                glyph_width: self.width,
                glyph_height: self.height,
            });
        }
        if self.width == target_width && self.height == target_height {
            return Ok(self.duplicate());
        }
        let target_x = (target_width - self.width) / 2;
        let target_y = (target_height - self.height) / 2;
        self.place_checked(target_width, target_height, target_x, target_y)
    }
}

} // verus!
