//! The pixel buffer model: a rectangular grid of pixels, each made of 1, 3 or
//! 4 integer samples of 8 or 16 bits, stored row-major as one flat vector.

use vstd::prelude::*;

verus! {

/// The greatest 8-bit sample value, used both as the white endpoint and as
/// the normalization range for 8-bit blending.
pub const MAX_SAMPLE_8: u32 = 255;

/// The greatest 16-bit sample value, used both as the white endpoint and as
/// the normalization range for 16-bit blending.
pub const MAX_SAMPLE_16: u32 = 65535;

/// A decoded raster image: `width * height` pixels whose samples are stored
/// row-major, channel-interleaved, in one flat vector.
///
/// The first three variants are the layouts the alpha compositor accepts;
/// `Rgba8` can be decoded and reduced to grayscale but is rejected by the
/// compositor.
#[derive(Debug, Clone, PartialEq, Eq)]
pub enum PixelBuffer {
    /// One 8-bit luminance sample per pixel.
    Luma8 { width: u32, height: u32, data: Vec<u8> },
    /// Three 8-bit samples (red, green, blue) per pixel.
    Rgb8 { width: u32, height: u32, data: Vec<u8> },
    /// Three 16-bit samples (red, green, blue) per pixel.
    Rgb16 { width: u32, height: u32, data: Vec<u16> },
    /// Four 8-bit samples (red, green, blue, alpha) per pixel.
    Rgba8 { width: u32, height: u32, data: Vec<u8> },
}

impl PixelBuffer {
    /// Width of the pixel grid, in pixels.
    pub open spec fn spec_width(&self) -> u32 {
        match self {
            PixelBuffer::Luma8 { width, .. } => *width,
            PixelBuffer::Rgb8 { width, .. } => *width,
            PixelBuffer::Rgb16 { width, .. } => *width,
            PixelBuffer::Rgba8 { width, .. } => *width,
        }
    }

    /// Height of the pixel grid, in pixels.
    pub open spec fn spec_height(&self) -> u32 {
        match self {
            PixelBuffer::Luma8 { height, .. } => *height,
            PixelBuffer::Rgb8 { height, .. } => *height,
            PixelBuffer::Rgb16 { height, .. } => *height,
            PixelBuffer::Rgba8 { height, .. } => *height,
        }
    }

    /// Number of samples each pixel carries.
    pub open spec fn channels(&self) -> int {
        match self {
            PixelBuffer::Luma8 { .. } => 1,
            PixelBuffer::Rgb8 { .. } => 3,
            PixelBuffer::Rgb16 { .. } => 3,
            PixelBuffer::Rgba8 { .. } => 4,
        }
    }

    /// The greatest value a sample of this buffer can take: the white
    /// endpoint and normalization range of the blend arithmetic.
    pub open spec fn sample_max(&self) -> int {
        match self {
            PixelBuffer::Rgb16 { .. } => MAX_SAMPLE_16 as int,
            _ => MAX_SAMPLE_8 as int,
        }
    }

    /// Every sample of the buffer, in storage order, as a mathematical
    /// integer. This is the model all contracts speak of.
    pub open spec fn samples(&self) -> Seq<int> {
        match self {
            PixelBuffer::Luma8 { data, .. } => data@.map_values(|v: u8| v as int),
            PixelBuffer::Rgb8 { data, .. } => data@.map_values(|v: u8| v as int),
            PixelBuffer::Rgb16 { data, .. } => data@.map_values(|v: u16| v as int),
            PixelBuffer::Rgba8 { data, .. } => data@.map_values(|v: u8| v as int),
        }
    }

    /// Well-formedness: the flat sample vector holds exactly
    /// `width * height * channels` samples.
    pub open spec fn well_formed(&self) -> bool {
        self.samples().len() == self.spec_width() * self.spec_height() * self.channels()
    }

    /// Whether the alpha compositor accepts this layout.
    pub open spec fn supported_for_blend(&self) -> bool {
        match self {
            PixelBuffer::Rgba8 { .. } => false,
            _ => true,
        }
    }

    /// Whether two buffers are of the same variant, with equal dimensions.
    pub open spec fn same_layout(&self, other: &PixelBuffer) -> bool {
        &&& self.spec_width() == other.spec_width()
        &&& self.spec_height() == other.spec_height()
        &&& match (self, other) {
            (PixelBuffer::Luma8 { .. }, PixelBuffer::Luma8 { .. }) => true,
            (PixelBuffer::Rgb8 { .. }, PixelBuffer::Rgb8 { .. }) => true,
            (PixelBuffer::Rgb16 { .. }, PixelBuffer::Rgb16 { .. }) => true,
            (PixelBuffer::Rgba8 { .. }, PixelBuffer::Rgba8 { .. }) => true,
            _ => false,
        }
    }

    /// A single-channel 8-bit buffer, if the sample vector has exactly one
    /// sample per pixel.
    pub fn new_luma8(width: u32, height: u32, data: Vec<u8>) -> (r: Option<PixelBuffer>)
        ensures
            r matches Some(b) ==> {
                &&& b == (PixelBuffer::Luma8 { width, height, data })
                &&& b.well_formed()
            },
            r is Some <==> data@.len() == width * height * 1,
    {
        if Self::len_fits(width, height, 1, data.len()) {
            Some(PixelBuffer::Luma8 { width, height, data })
        } else {
            None
        }
    }

    /// A three-channel 8-bit buffer, if the sample vector has exactly three
    /// samples per pixel.
    pub fn new_rgb8(width: u32, height: u32, data: Vec<u8>) -> (r: Option<PixelBuffer>)
        ensures
            r matches Some(b) ==> {
                &&& b == (PixelBuffer::Rgb8 { width, height, data })
                &&& b.well_formed()
            },
            r is Some <==> data@.len() == width * height * 3,
    {
        if Self::len_fits(width, height, 3, data.len()) {
            Some(PixelBuffer::Rgb8 { width, height, data })
        } else {
            None
        }
    }

    /// A three-channel 16-bit buffer, if the sample vector has exactly three
    /// samples per pixel.
    pub fn new_rgb16(width: u32, height: u32, data: Vec<u16>) -> (r: Option<PixelBuffer>)
        ensures
            r matches Some(b) ==> {
                &&& b == (PixelBuffer::Rgb16 { width, height, data })
                &&& b.well_formed()
            },
            r is Some <==> data@.len() == width * height * 3,
    {
        if Self::len_fits(width, height, 3, data.len()) {
            Some(PixelBuffer::Rgb16 { width, height, data })
        } else {
            None
        }
    }

    /// A four-channel 8-bit buffer, if the sample vector has exactly four
    /// samples per pixel.
    pub fn new_rgba8(width: u32, height: u32, data: Vec<u8>) -> (r: Option<PixelBuffer>)
        ensures
            r matches Some(b) ==> {
                &&& b == (PixelBuffer::Rgba8 { width, height, data })
                &&& b.well_formed()
            },
            r is Some <==> data@.len() == width * height * 4,
    {
        if Self::len_fits(width, height, 4, data.len()) {
            Some(PixelBuffer::Rgba8 { width, height, data })
        } else {
            None
        }
    }

    /// Whether a flat sample vector of length `len` holds exactly
    /// `width * height * channels` samples, computed without overflow.
    fn len_fits(width: u32, height: u32, channels: u32, len: usize) -> (r: bool)
        ensures
            r <==> len == width * height * channels,
    {
        proof {
            assert((width as int) * (height as int) <= 0xffffffff * 0xffffffff)
                by (nonlinear_arith)
                requires
                    0 <= width <= 0xffffffff,
                    0 <= height <= 0xffffffff,
            ;
            assert((width as int) * (height as int) * (channels as int)
                <= 0xffffffff * 0xffffffff * 0xffffffff) by (nonlinear_arith)
                requires
                    0 <= width <= 0xffffffff,
                    0 <= height <= 0xffffffff,
                    0 <= channels <= 0xffffffff,
            ;
        }
        let need: u128 = (width as u128) * (height as u128) * (channels as u128);
        (len as u128) == need
    }

    /// Width of the pixel grid, in pixels.
    pub fn width(&self) -> (w: u32)
        ensures
            w == self.spec_width(),
    {
        match self {
            PixelBuffer::Luma8 { width, .. } => *width,
            PixelBuffer::Rgb8 { width, .. } => *width,
            PixelBuffer::Rgb16 { width, .. } => *width,
            PixelBuffer::Rgba8 { width, .. } => *width,
        }
    }

    /// Height of the pixel grid, in pixels.
    pub fn height(&self) -> (h: u32)
        ensures
            h == self.spec_height(),
    {
        match self {
            PixelBuffer::Luma8 { height, .. } => *height,
            PixelBuffer::Rgb8 { height, .. } => *height,
            PixelBuffer::Rgb16 { height, .. } => *height,
            PixelBuffer::Rgba8 { height, .. } => *height,
        }
    }
}

} // verus!
