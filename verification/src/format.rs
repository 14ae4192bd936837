//! Pixel formats and the layout metadata of a pixel buffer.
//!
//! A descriptor says how a buffer of bytes is to be read as rows of pixels.
//! It is independent of where the bytes are stored.

use vstd::prelude::*;

verus! {

/// The layout of one pixel.
#[derive(Clone, Copy, Debug, PartialEq, Eq, Hash, Structural)]
pub enum ImageFormat {
    /// One 8-bit channel.
    R8,
    /// Four 8-bit channels: blue, green, red, alpha.
    BGRA8,
    /// Four 32-bit floating-point channels: red, green, blue, alpha.
    RGBAF32,
    /// Two 8-bit channels.
    RG8,
}

impl ImageFormat {
    /// The number of bytes that one pixel of this format occupies.
    pub open spec fn spec_bytes_per_pixel(self) -> u32 {
        match self {
            ImageFormat::R8 => 1,
            ImageFormat::BGRA8 => 4,
            ImageFormat::RGBAF32 => 16,
            ImageFormat::RG8 => 2,
        }
    }

    #[verifier::when_used_as_spec(spec_bytes_per_pixel)]
    pub fn bytes_per_pixel(self) -> (bytes: u32)
        ensures
            bytes == self.spec_bytes_per_pixel(),
            bytes == 1 || bytes == 2 || bytes == 4 || bytes == 16,
    {
        match self {
            ImageFormat::R8 => 1,
            ImageFormat::BGRA8 => 4,
            ImageFormat::RGBAF32 => 16,
            ImageFormat::RG8 => 2,
        }
    }
}

/// How a pixel buffer is laid out.
///
/// `width` and `height` give the extent of the content, not the size of the
/// allocation that holds it.
#[derive(Clone, Copy, Debug, PartialEq, Structural)]
pub struct ImageDescriptor {
    pub format: ImageFormat,
    pub width: u32,
    pub height: u32,
    /// The distance in bytes from one row to the next, where it is not the
    /// tight `width` times the pixel size.
    pub stride: Option<u32>,
    /// The position of the first pixel, in bytes from the start of the buffer.
    pub offset: u32,
    pub is_opaque: bool,
}

impl ImageDescriptor {
    /// The descriptor of a tightly packed buffer that starts at its first byte.
    pub open spec fn spec_new(width: u32, height: u32, format: ImageFormat, is_opaque: bool) -> Self {
        ImageDescriptor { format, width, height, stride: None, offset: 0, is_opaque }
    }

    /// The distance in bytes between the starts of two consecutive rows: the
    /// explicit stride where one is set, else the width of a tightly packed row.
    pub open spec fn effective_stride(&self) -> int {
        match self.stride {
            Some(stride) => stride as int,
            None => self.width * self.format.bytes_per_pixel(),
        }
    }

    #[verifier::when_used_as_spec(spec_new)]
    pub fn new(width: u32, height: u32, format: ImageFormat, is_opaque: bool) -> (descriptor: Self)
        ensures
            descriptor == (ImageDescriptor {
                format,
                width,
                height,
                stride: None,
                offset: 0,
                is_opaque,
            }),
    {
        ImageDescriptor { width, height, format, stride: None, offset: 0, is_opaque }
    }

    /// The effective row stride. A descriptor without an explicit stride must
    /// describe rows whose byte length fits in 32 bits.
    pub fn compute_stride(&self) -> (stride: u32)
        requires
            self.stride is None ==> self.width * self.format.bytes_per_pixel() <= u32::MAX,
        ensures
            stride == self.effective_stride(),
            self.stride matches Some(explicit) ==> stride == explicit,
            self.stride is None ==> stride == self.width * self.format.bytes_per_pixel(),
    {
        match self.stride {
            Some(stride) => stride,
            None => self.width * self.format.bytes_per_pixel(),
        }
    }
}

/// Every format occupies a whole, non-zero number of bytes per pixel: one, two,
/// four or sixteen.
pub proof fn lemma_bytes_per_pixel_values(format: ImageFormat)
    ensures
        format.bytes_per_pixel() != 0,
        format.bytes_per_pixel() == 1 || format.bytes_per_pixel() == 2 || format.bytes_per_pixel()
            == 4 || format.bytes_per_pixel() == 16,
{
}

/// A freshly made descriptor has no explicit stride, so its rows are tightly
/// packed: the effective stride is the width times the pixel size, for every
/// format, and it is never negative.
pub proof fn lemma_new_descriptor_is_tightly_packed(
    width: u32,
    height: u32,
    format: ImageFormat,
    is_opaque: bool,
)
    ensures
        ImageDescriptor::new(width, height, format, is_opaque).effective_stride() == width
            * format.bytes_per_pixel(),
        ImageDescriptor::new(width, height, format, is_opaque).effective_stride() >= 0,
{
    assert(width * format.bytes_per_pixel() >= 0) by (nonlinear_arith)
        requires
            width >= 0,
            format.bytes_per_pixel() >= 0,
    ;
}

} // verus!
