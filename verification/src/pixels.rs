//! The library's own model of a decoded image: a pixel grid with a fixed
//! four-channel, eight-bit layout, held as plain bytes.

use vstd::prelude::*;

verus! {

/// The mathematical model of a decoded image: its dimensions and its RGBA8
/// samples, four bytes per pixel, rows top to bottom.
#[verifier::ext_equal]
pub ghost struct ImageView {
    pub width: int,
    pub height: int,
    pub pixels: Seq<u8>,
}

/// A decoded image: a pixel grid in RGBA8 layout. `pixels` holds
/// `4 * width * height` bytes, four per pixel, rows top to bottom.
#[derive(Debug)]
pub struct PixelImage {
    pub width: u32,
    pub height: u32,
    pub pixels: Vec<u8>,
}

impl View for PixelImage {
    type V = ImageView;

    open spec fn view(&self) -> ImageView {
        ImageView {
            width: self.width as int,
            height: self.height as int,
            pixels: self.pixels@,
        }
    }
}

impl PixelImage {
    /// Well-formedness: the byte buffer holds exactly four bytes per pixel.
    pub open spec fn wf(self) -> bool {
        self.pixels@.len() == 4 * (self.width as int) * (self.height as int)
    }

    /// An exact copy of the image, byte for byte.
    pub fn duplicate(&self) -> (r: PixelImage)
        ensures
            r@ == self@,
    {
        let mut pixels: Vec<u8> = Vec::new();
        let mut i: usize = 0;
        while i < self.pixels.len()
            invariant
                i <= self.pixels.len(),
                pixels@ == self.pixels@.take(i as int),
            decreases self.pixels.len() - i,
        {
            pixels.push(self.pixels[i]);
            i = i + 1;
        }
        assert(pixels@ =~= self.pixels@);
        let r = PixelImage { width: self.width, height: self.height, pixels };
        assert(r@ =~= self@);
        r
    }
}

} // verus!
