//! Which pixels of the idle sprite are solid: the pointer counts as on the pet
//! only over those, not over the transparent margin of the sprite's box.

use vstd::prelude::*;
use crate::imaging::{alpha, alpha_at, decode_image, height, image_decodes, picture_height, picture_width, to_rgba8, width, Origin, Picture};

verus! {

/// A pixel whose alpha exceeds this is solid (a little above 0, so that the
/// half-transparent antialiased rim does not count).
pub const ALPHA_THRESHOLD: u8 = 10;

/// The idle sprite, in RGBA.
pub struct HitMask {
    picture: Picture,
}

pub open spec fn mask_origin(bytes: Seq<u8>) -> Origin {
    Origin::Rgba8 { source: Box::new(Origin::Sniffed { bytes: bytes }) }
}

pub open spec fn clamp_below(v: u32, size: u32) -> u32 {
    if v < size { v } else { (size - 1) as u32 }
}

impl HitMask {
    /// How the mask's picture was made.
    pub closed spec fn origin(&self) -> Origin {
        self.picture.origin()
    }

    /// The mask of a sprite file, or `None` where it is not a picture.
    pub fn load(bytes: &[u8]) -> (m: Option<HitMask>)
        ensures
            m is Some <==> image_decodes(bytes@),
            m matches Some(mask) ==> mask.origin() == mask_origin(bytes@),
    {
        match decode_image(bytes) {
            Some(p) => Some(HitMask { picture: to_rgba8(&p) }),
            None => None,
        }
    }

    pub fn width(&self) -> (w: u32)
        ensures
            w == picture_width(self.origin()),
    {
        width(&self.picture)
    }

    pub fn height(&self) -> (h: u32)
        ensures
            h == picture_height(self.origin()),
    {
        height(&self.picture)
    }

    /// Whether the pixel at (`px`, `py`) is solid; coordinates past the right
    /// or bottom edge read the last column or row. An empty mask has no solid
    /// pixel.
    pub fn is_opaque_at_pixel(&self, px: u32, py: u32) -> (solid: bool)
        ensures
            solid == {
                let w = picture_width(self.origin());
                let h = picture_height(self.origin());
                w > 0 && h > 0 && alpha_at(self.origin(), clamp_below(px, w), clamp_below(py, h)) > ALPHA_THRESHOLD
            },
    {
        let w = width(&self.picture);
        let h = height(&self.picture);
        if w == 0 || h == 0 {
            return false;
        }
        let x = if px < w { px } else { w - 1 };
        let y = if py < h { py } else { h - 1 };
        alpha(&self.picture, x, y) > ALPHA_THRESHOLD
    }
}

} // verus!
