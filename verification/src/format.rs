//! Pixel formats: how an image is declared, how the GPU stores it, and how
//! many bytes a pixel and a row of pixels take.

use vstd::prelude::*;
use vstd::std_specs::convert::FromSpecImpl;

verus! {

/// The declared interpretation of an image file's pixels.
#[derive(Clone, Copy, Debug, PartialEq, Eq, Hash, Structural)]
pub enum ImageFormat {
    /// Eight bits per channel, sRGB-encoded colour.
    SRGB,
    /// Eight bits per channel, linear data (normal maps, roughness, ...).
    RGB,
    /// High dynamic range, stored on the GPU as 16-bit floats.
    HDR16,
    /// High dynamic range, stored on the GPU as 32-bit floats.
    HDR32,
}

/// The GPU-side storage format of a texture.
#[derive(Clone, Copy, Debug, PartialEq, Eq, Hash, Structural)]
pub enum TextureFormat {
    Rgba8Unorm,
    Rgba8UnormSrgb,
    Rgba16Float,
    Rgba32Float,
}

impl ImageFormat {
    /// Whether decoded pixels of this format are floats rather than bytes.
    pub open spec fn is_hdr(self) -> bool {
        self == ImageFormat::HDR16 || self == ImageFormat::HDR32
    }

    /// Bytes that one decoded pixel occupies: four 8-bit channels, or four
    /// 32-bit float channels for the high dynamic range formats.
    pub open spec fn spec_bytes_per_pixel(self) -> nat {
        if self.is_hdr() {
            16
        } else {
            4
        }
    }

    /// The GPU format that pixels of this declared format are uploaded as.
    pub open spec fn spec_texture_format(self) -> TextureFormat {
        match self {
            ImageFormat::HDR16 => TextureFormat::Rgba16Float,
            ImageFormat::HDR32 => TextureFormat::Rgba32Float,
            ImageFormat::RGB => TextureFormat::Rgba8Unorm,
            ImageFormat::SRGB => TextureFormat::Rgba8UnormSrgb,
        }
    }

    /// Bytes that one decoded pixel occupies.
    pub fn bytes_per_pixel(self) -> (n: u32)
        ensures
            n == self.spec_bytes_per_pixel(),
    {
        match self {
            ImageFormat::HDR16 | ImageFormat::HDR32 => 16,
            ImageFormat::RGB | ImageFormat::SRGB => 4,
        }
    }

    /// The GPU format that pixels of this declared format are uploaded as.
    #[verifier::when_used_as_spec(spec_texture_format)]
    pub fn texture_format(self) -> (format: TextureFormat)
        ensures
            format == self.spec_texture_format(),
    {
        match self {
            ImageFormat::HDR16 => TextureFormat::Rgba16Float,
            ImageFormat::HDR32 => TextureFormat::Rgba32Float,
            ImageFormat::RGB => TextureFormat::Rgba8Unorm,
            ImageFormat::SRGB => TextureFormat::Rgba8UnormSrgb,
        }
    }
}

impl From<ImageFormat> for TextureFormat {
    fn from(format: ImageFormat) -> (texture_format: TextureFormat) {
        format.texture_format()
    }
}

impl FromSpecImpl<ImageFormat> for TextureFormat {
    open spec fn obeys_from_spec() -> bool {
        true
    }

    open spec fn from_spec(format: ImageFormat) -> TextureFormat {
        format.spec_texture_format()
    }
}

impl TextureFormat {
    /// Whether a texel is four 8-bit channels.
    pub open spec fn is_8bit(self) -> bool {
        self == TextureFormat::Rgba8UnormSrgb || self == TextureFormat::Rgba8Unorm
    }

    /// Bytes per texel of the pixel data that is uploaded for this format:
    /// 4 for the 8-bit formats, 16 for the float formats.
    pub open spec fn spec_bytes_per_pixel(self) -> nat {
        if self.is_8bit() {
            4
        } else {
            16
        }
    }

    /// Bytes in one row of `width` texels, where that fits in a `u32`.
    pub open spec fn spec_bytes_per_row(self, width: u32) -> Option<u32> {
        if self.spec_bytes_per_pixel() * width <= u32::MAX {
            Some((self.spec_bytes_per_pixel() * width) as u32)
        } else {
            None
        }
    }

    /// Bytes per texel of the pixel data that is uploaded for this format.
    pub fn bytes_per_pixel(self) -> (n: u32)
        ensures
            n == self.spec_bytes_per_pixel(),
    {
        match self {
            TextureFormat::Rgba8UnormSrgb | TextureFormat::Rgba8Unorm => 4,
            TextureFormat::Rgba16Float | TextureFormat::Rgba32Float => 16,
        }
    }

    /// The row stride of the upload buffer, or `None` when it exceeds `u32`.
    pub fn bytes_per_row(self, width: u32) -> (stride: Option<u32>)
        ensures
            stride == self.spec_bytes_per_row(width),
    {
        self.bytes_per_pixel().checked_mul(width)
    }
}

/// What a declaration file says of one image: where its file lies, relative
/// to the declaration, and how its pixels are to be read.
#[derive(Clone, Debug, PartialEq, Eq, Hash)]
pub struct ImageInfo {
    pub file: String,
    pub format: ImageFormat,
}

/// The mathematical content of an [`ImageInfo`].
pub struct ImageInfoView {
    pub file: Seq<char>,
    pub format: ImageFormat,
}

impl View for ImageInfo {
    type V = ImageInfoView;

    open spec fn view(&self) -> ImageInfoView {
        ImageInfoView { file: self.file@, format: self.format }
    }
}

} // verus!
