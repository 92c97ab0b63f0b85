use vstd::prelude::*;

verus! {

/// One pixel, as the four 8-bit channels of an RGBA image.
#[derive(Debug, Clone, Copy, PartialEq, Eq, Structural)]
pub struct Rgba {
    pub r: u8,
    pub g: u8,
    pub b: u8,
    pub a: u8,
}

/// Builds an [`Rgba`] value; keeps pixel tables short.
pub open spec fn rgba(r: u8, g: u8, b: u8, a: u8) -> Rgba {
    Rgba { r, g, b, a }
}

/// An image held as plain pixel data: `width * height` pixels in row-major
/// order. This is the form in which image data enters and leaves the
/// library; decoding an image file into it, and turning it back into a
/// texture, happen outside.
#[derive(Debug, Clone, PartialEq, Eq)]
pub struct Bitmap {
    pub width: usize,
    pub height: usize,
    pub pixels: Vec<Rgba>,
}

impl Bitmap {
    /// A bitmap is well formed when it holds exactly one pixel per cell.
    pub open spec fn wf(self) -> bool {
        self.pixels.len() == self.width * self.height
    }

    pub fn new(width: usize, height: usize, pixels: Vec<Rgba>) -> (r: Option<Bitmap>)
        ensures
            match r {
                Some(b) => b.wf() && b.width == width && b.height == height
                    && b.pixels@ == pixels@,
                None => pixels@.len() != width * height,
            },
    {
        if width != 0 && pixels.len() / width == height && pixels.len() % width == 0 {
            proof {
                vstd::arithmetic::div_mod::lemma_fundamental_div_mod(
                    pixels.len() as int,
                    width as int,
                );
            }
            Some(Bitmap { width, height, pixels })
        } else if width == 0 && pixels.len() == 0 {
            Some(Bitmap { width, height, pixels })
        } else {
            proof {
                if pixels.len() == width * height {
                    vstd::arithmetic::div_mod::lemma_fundamental_div_mod_converse(
                        pixels.len() as int,
                        width as int,
                        height as int,
                        0,
                    );
                }
            }
            None
        }
    }
}

} // verus!
