//! The in-memory model of a decoded image: dimensions, color type and the
//! raw pixel byte buffer.

use vstd::prelude::*;

verus! {

/// The pixel layout of a decoded image, mirroring the color types that the
/// decoders produce.
#[derive(Clone, Copy, PartialEq, Eq, Structural, Debug)]
pub enum ColorKind {
    L8,
    La8,
    Rgb8,
    Rgba8,
    L16,
    La16,
    Rgb16,
    Rgba16,
    Rgb32F,
    Rgba32F,
}

/// How many bytes one pixel of the given color layout occupies.
pub open spec fn bytes_per_pixel(c: ColorKind) -> int {
    match c {
        ColorKind::L8 => 1,
        ColorKind::La8 => 2,
        ColorKind::Rgb8 => 3,
        ColorKind::Rgba8 => 4,
        ColorKind::L16 => 2,
        ColorKind::La16 => 4,
        ColorKind::Rgb16 => 6,
        ColorKind::Rgba16 => 8,
        ColorKind::Rgb32F => 12,
        ColorKind::Rgba32F => 16,
    }
}

/// A decoded image: width and height in pixels, the pixel layout, and the
/// contiguous native-endian pixel bytes, row by row.
pub struct DecodedImage {
    pub width: u32,
    pub height: u32,
    pub color: ColorKind,
    pub pixels: Vec<u8>,
}

impl DecodedImage {
    /// The buffer holds exactly one pixel's worth of bytes per pixel.
    pub open spec fn wf(&self) -> bool {
        self.pixels@.len() == self.width as int * self.height as int * bytes_per_pixel(self.color)
    }
}

impl View for DecodedImage {
    type V = (u32, u32, ColorKind, Seq<u8>);

    open spec fn view(&self) -> Self::V {
        (self.width, self.height, self.color, self.pixels@)
    }
}

} // verus!
