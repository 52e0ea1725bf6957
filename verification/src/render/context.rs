//! Image payload descriptions used by drawing requests

use vstd::prelude::*;

verus! {

/// The source of an image to draw
#[derive(Debug, Clone, PartialEq)]
pub enum ImageType {
    /// An image loaded from a file path
    Path(String),
    /// Raw image data with its format and dimensions
    Data(Vec<u8>, ImageFormat, u32, u32),
}

/// The pixel layout of raw image data
#[non_exhaustive]
#[derive(Debug, Copy, Clone, PartialEq)]
pub enum ImageFormat {
    /// Pixel is 24-bits, 8-bits per component
    Rgb8,
    /// Pixel is 32-bits, 8-bits per component
    Rgba8,
    /// Pixel is 24-bit, 8-bits per component
    Bgr8,
    /// Pixel is 32-bits, 8-bits per component
    Bgra8,
}

} // verus!
