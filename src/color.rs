use vstd::prelude::*;

verus! {

/// The color space represented by the underlying image data.
#[derive(Copy, Clone, Debug, PartialEq, Eq, Structural)]
pub enum ColorType {
    /// Pixel is 8-bit luminance.
    L8,
    /// Pixel is 8-bit luminance with an alpha channel.
    La8,
    /// Pixel contains 8-bit R, G, and B channels.
    Rgb8,
    /// Pixel is an 8-bit RGB pixel with an 8-bit alpha channel.
    Rgba8,
    /// Pixel is 16-bit luminance.
    L16,
    /// Pixel is 16-bit luminance with an alpha channel.
    La16,
    /// Pixel is 16-bit RGB.
    Rgb16,
    /// Pixel is 16-bit RGBA.
    Rgba16,
    /// Pixel contains 8-bit B, G, and R channels.
    Bgr8,
    /// Pixel is 8-bit BGR with an 8-bit alpha channel.
    Bgra8,
}

impl ColorType {
    /// The number of bytes one pixel of this layout occupies.
    pub open spec fn spec_bytes_per_pixel(self) -> nat {
        match self {
            ColorType::L8 => 1,
            ColorType::L16 | ColorType::La8 => 2,
            ColorType::Rgb8 | ColorType::Bgr8 => 3,
            ColorType::Rgba8 | ColorType::Bgra8 | ColorType::La16 => 4,
            ColorType::Rgb16 => 6,
            ColorType::Rgba16 => 8,
        }
    }

    /// The number of channels one pixel of this layout carries.
    pub open spec fn spec_channel_count(self) -> nat {
        match self {
            ColorType::L8 | ColorType::L16 => 1,
            ColorType::La8 | ColorType::La16 => 2,
            ColorType::Rgb8 | ColorType::Bgr8 | ColorType::Rgb16 => 3,
            ColorType::Rgba8 | ColorType::Bgra8 | ColorType::Rgba16 => 4,
        }
    }

    /// Whether one of the channels of this layout is an alpha channel.
    pub open spec fn spec_has_alpha_channel(self) -> bool {
        match self {
            ColorType::La8 | ColorType::Rgba8 | ColorType::Bgra8 => true,
            ColorType::La16 | ColorType::Rgba16 => true,
            _ => false,
        }
    }

    #[inline]
    pub fn bytes_per_pixel(self) -> (r: usize)
        ensures
            r == self.spec_bytes_per_pixel(),
            1 <= r <= 8,
    {
        match self {
            ColorType::L8 => 1,
            ColorType::L16 => 2,
            ColorType::La8 => 2,
            ColorType::Rgb8 => 3,
            ColorType::Bgr8 => 3,
            ColorType::Rgba8 => 4,
            ColorType::Bgra8 => 4,
            ColorType::La16 => 4,
            ColorType::Rgb16 => 6,
            ColorType::Rgba16 => 8,
        }
    }

    #[inline]
    pub fn channel_count(self) -> (r: usize)
        ensures
            r == self.spec_channel_count(),
            1 <= r <= 4,
    {
        match self {
            ColorType::L8 => 1,
            ColorType::L16 => 1,
            ColorType::La8 => 2,
            ColorType::Rgb8 => 3,
            ColorType::Bgr8 => 3,
            ColorType::Rgba8 => 4,
            ColorType::Bgra8 => 4,
            ColorType::La16 => 2,
            ColorType::Rgb16 => 3,
            ColorType::Rgba16 => 4,
        }
    }

    #[inline]
    pub fn bits_per_pixel(self) -> (r: usize)
        ensures
            r == 8 * self.spec_bytes_per_pixel(),
    {
        8 * self.bytes_per_pixel()
    }

    #[inline]
    pub fn has_alpha_channel(self) -> (r: bool)
        ensures
            r == self.spec_has_alpha_channel(),
    {
        match self {
            ColorType::L8 => false,
            ColorType::L16 => false,
            ColorType::La8 => true,
            ColorType::Rgb8 => false,
            ColorType::Bgr8 => false,
            ColorType::Rgba8 => true,
            ColorType::Bgra8 => true,
            ColorType::La16 => true,
            ColorType::Rgb16 => false,
            ColorType::Rgba16 => true,
        }
    }
}

} // verus!
