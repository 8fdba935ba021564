//! Images as the asset cache records them, and the two ways of making one:
//! from a declaration ([`ImageBuilder::build`]) or from a file's path
//! ([`Image::new`]).
//!
//! Making an image decodes its pixels and describes its upload. The record
//! that stays in the cache holds what later stages read: the declaration,
//! the size and the GPU format.

use std::sync::Arc;
use vstd::prelude::*;
use vstd::slice::slice_to_vec;
use vstd::string::StringSliceAdditionalSpecFns;
use vstd::utf8::encode_utf8;
use crate::classify::{image_format_with, lowercase, spec_image_format, to_lowercase};
use crate::error::AssetError;
use crate::format::{ImageFormat, ImageInfo, ImageInfoView, TextureFormat};
use crate::pixels::{
    check_picture, declared_size, decode_is_owed, decode_is_refused, decode_picture,
    decode_radiance, is_decoding, read_picture, starts_as_radiance, DecodedImage,
    DecodedImageView,
};
use crate::texture::{
    create_texture, flat_extent, spec_create_texture, Extent3d, TextureUpload, TextureUploadView,
};

verus! {

/// An image known to the asset cache.
#[derive(Clone, Debug, PartialEq, Eq)]
pub struct Image {
    pub image_info: Arc<ImageInfo>,
    pub extent: Extent3d,
    pub format: TextureFormat,
}

/// The mathematical content of an [`Image`].
pub struct ImageView {
    pub image_info: ImageInfoView,
    pub extent: Extent3d,
    pub format: TextureFormat,
}

impl View for Image {
    type V = ImageView;

    open spec fn view(&self) -> ImageView {
        ImageView { image_info: self.image_info@, extent: self.extent, format: self.format }
    }
}

/// The bytes of an image file, waiting for a declaration to be built with.
#[derive(Clone, Debug, PartialEq, Eq)]
pub struct ImageBuilder {
    pub bytes: Vec<u8>,
}

/// The image and the upload that a decoded picture gives under a
/// declaration.
pub open spec fn spec_assemble(
    info: ImageInfoView,
    pixels: Seq<u8>,
    width: u32,
    height: u32,
) -> Result<(ImageView, TextureUploadView), AssetError> {
    let format = info.format.spec_texture_format();
    match spec_create_texture(width, height, format, pixels) {
        Ok(upload) => Ok(
            (ImageView { image_info: info, extent: flat_extent(width, height), format }, upload),
        ),
        Err(e) => Err(e),
    }
}

/// Whether `image` and `upload` are what building the file `bytes` under
/// the declaration `info` gives: the uploaded bytes are a decoding of the
/// file at the image's size, and image and upload are assembled from them.
pub open spec fn is_built(
    bytes: Seq<u8>,
    info: ImageInfoView,
    image: ImageView,
    upload: TextureUploadView,
) -> bool {
    &&& is_decoding(
        bytes,
        info.format,
        DecodedImageView {
            bytes: upload.bytes,
            width: image.extent.width,
            height: image.extent.height,
        },
    )
    &&& spec_assemble(info, upload.bytes, image.extent.width, image.extent.height) == Ok::<
        (ImageView, TextureUploadView),
        AssetError,
    >((image, upload))
    &&& upload.is_tight()
}

/// Whether a row of the width that the file `bytes` declares can be copied
/// into a texture of the format that `format` is uploaded as.
pub open spec fn row_fits(bytes: Seq<u8>, format: ImageFormat) -> bool {
    declared_size(bytes, format) matches Some(s) && format.spec_texture_format().spec_bytes_per_row(
        s.0,
    ) is Some
}

/// The error, if it is certain, of making a texture of the file `bytes` as
/// `format`: `Decode` where decoding is certain to fail, `Upload` where
/// the file passes but a row of it is too long.
pub open spec fn certain_error(bytes: Seq<u8>, format: ImageFormat) -> Option<AssetError> {
    if decode_is_refused(bytes, format) {
        Some(AssetError::Decode)
    } else if !row_fits(bytes, format) {
        Some(AssetError::Upload)
    } else {
        None
    }
}

/// What the error of every outcome obeys, `error` being `None` on success:
/// a certain error is the error; failure is otherwise `Decode`, and comes
/// only where success is not owed.
pub open spec fn is_error_outcome(bytes: Seq<u8>, format: ImageFormat, error: Option<AssetError>)
    -> bool {
    match certain_error(bytes, format) {
        Some(e) => error == Some(e),
        None => (error is None || error == Some(AssetError::Decode)) && (decode_is_owed(
            bytes,
            format,
        ) ==> error is None),
    }
}

/// What every outcome of building the file `bytes` under `info` obeys.
pub open spec fn is_build_outcome(
    bytes: Seq<u8>,
    info: ImageInfoView,
    built: Result<(ImageView, TextureUploadView), AssetError>,
) -> bool {
    match built {
        Ok(b) => is_built(bytes, info, b.0, b.1) && is_error_outcome(bytes, info.format, None),
        Err(e) => is_error_outcome(bytes, info.format, Some(e)),
    }
}

/// The views of a built image and its upload.
pub open spec fn built_view(built: Result<(Image, TextureUpload), AssetError>) -> Result<
    (ImageView, TextureUploadView),
    AssetError,
> {
    match built {
        Ok(b) => Ok((b.0@, b.1@)),
        Err(e) => Err(e),
    }
}

/// The declaration that a bare file receives: its name, and the format that
/// its path suggests.
pub open spec fn spec_info_of(path: Seq<u8>, lowered: Seq<u8>, file_name: Seq<char>)
    -> ImageInfoView {
    ImageInfoView { file: file_name, format: spec_image_format(path, lowered) }
}

/// Puts a decoded picture together with its declaration.
pub fn assemble(image_info: Arc<ImageInfo>, picture: DecodedImage) -> (built: Result<
    (Image, TextureUpload),
    AssetError,
>)
    ensures
        match spec_assemble(image_info@, picture.bytes@, picture.width, picture.height) {
            Ok(b) => built matches Ok(r) && r.0@ == b.0 && r.1@ == b.1,
            Err(e) => built == Err::<(Image, TextureUpload), AssetError>(e),
        },
{
    let format: TextureFormat = image_info.format.texture_format();
    let extent = Extent3d::flat(picture.width, picture.height);
    match create_texture(picture.width, picture.height, format, picture.bytes) {
        Ok(upload) => Ok((Image { image_info, extent, format }, upload)),
        Err(e) => Err(e),
    }
}

/// What every outcome of decoding the file `bytes` as `format`, for a
/// texture, obeys.
pub open spec fn is_pixels_outcome(
    bytes: Seq<u8>,
    format: ImageFormat,
    pixels: Result<(Seq<u8>, Extent3d, TextureFormat), AssetError>,
) -> bool {
    match pixels {
        Ok(p) => {
            &&& is_decoding(
                bytes,
                format,
                DecodedImageView { bytes: p.0, width: p.1.width, height: p.1.height },
            )
            &&& p.1.depth == 1
            &&& p.2 == format.spec_texture_format()
            &&& is_error_outcome(bytes, format, None)
        },
        Err(e) => is_error_outcome(bytes, format, Some(e)),
    }
}

/// The views of decoded pixels with their extent and format.
pub open spec fn pixels_view(pixels: Result<(Vec<u8>, Extent3d, TextureFormat), AssetError>)
    -> Result<(Seq<u8>, Extent3d, TextureFormat), AssetError> {
    match pixels {
        Ok(p) => Ok((p.0@, p.1, p.2)),
        Err(e) => Err(e),
    }
}

/// Decodes a file for a texture. A PNG or JPEG file whose rows are too
/// long to copy is turned away before its pixels are decoded.
fn pixels_of(bytes: &[u8], format: ImageFormat) -> (pixels: Result<
    (Vec<u8>, Extent3d, TextureFormat),
    AssetError,
>)
    ensures
        is_pixels_outcome(bytes@, format, pixels_view(pixels)),
{
    let texture_format = format.texture_format();
    let decoded = match format {
        ImageFormat::HDR16 | ImageFormat::HDR32 => decode_radiance(bytes),
        ImageFormat::RGB | ImageFormat::SRGB => {
            if starts_as_radiance(bytes) {
                decode_picture(bytes)
            } else {
                match check_picture(bytes) {
                    Ok(size) => {
                        if texture_format.bytes_per_row(size.0).is_none() {
                            return Err(AssetError::Upload);
                        }
                        read_picture(bytes)
                    },
                    Err(e) => Err(e),
                }
            }
        },
    };
    match decoded {
        Ok(picture) => {
            if texture_format.bytes_per_row(picture.width).is_none() {
                return Err(AssetError::Upload);
            }
            Ok((picture.bytes, Extent3d::flat(picture.width, picture.height), texture_format))
        },
        Err(e) => Err(e),
    }
}

impl ImageBuilder {
    /// Keeps a copy of the file's bytes. This never fails.
    pub fn decode(bytes: &[u8]) -> (builder: Result<ImageBuilder, AssetError>)
        ensures
            builder matches Ok(b) && b.bytes@ == bytes@,
    {
        Ok(ImageBuilder { bytes: slice_to_vec(bytes) })
    }

    /// Decodes the bytes as the declaration says, and describes the image
    /// and its upload.
    ///
    /// Fails with `Decode` where the bytes cannot be decoded, and with
    /// `Upload` where the file can be but a row of the picture is too long
    /// to be copied.
    pub fn build(&self, image_info: Arc<ImageInfo>) -> (built: Result<
        (Image, TextureUpload),
        AssetError,
    >)
        ensures
            is_build_outcome(self.bytes@, image_info@, built_view(built)),
    {
        let (image_bytes, extent, format) = match pixels_of(
            self.bytes.as_slice(),
            image_info.format,
        ) {
            Ok(pixels) => pixels,
            Err(e) => {
                return Err(e);
            },
        };
        match create_texture(extent.width, extent.height, format, image_bytes) {
            Ok(upload) => Ok((Image { image_info, extent, format }, upload)),
            Err(e) => Err(e),
        }
    }
}

impl Image {
    /// Decodes a file that holds linear data, such as a normal map: 8-bit
    /// RGBA pixels for an `Rgba8Unorm` texture.
    pub fn create_normal_image(bytes: &[u8]) -> (pixels: Result<
        (Vec<u8>, Extent3d, TextureFormat),
        AssetError,
    >)
        ensures
            is_pixels_outcome(bytes@, ImageFormat::RGB, pixels_view(pixels)),
    {
        pixels_of(bytes, ImageFormat::RGB)
    }

    /// Decodes a file that holds colour: 8-bit RGBA pixels for an
    /// `Rgba8UnormSrgb` texture.
    pub fn create_color_image(bytes: &[u8]) -> (pixels: Result<
        (Vec<u8>, Extent3d, TextureFormat),
        AssetError,
    >)
        ensures
            is_pixels_outcome(bytes@, ImageFormat::SRGB, pixels_view(pixels)),
    {
        pixels_of(bytes, ImageFormat::SRGB)
    }

    /// Decodes a Radiance file: RGBA pixels of 32-bit floats, with an alpha
    /// of one, for an `Rgba32Float` texture.
    pub fn create_hdr_image(bytes: &[u8]) -> (pixels: Result<
        (Vec<u8>, Extent3d, TextureFormat),
        AssetError,
    >)
        ensures
            is_pixels_outcome(bytes@, ImageFormat::HDR32, pixels_view(pixels)),
    {
        pixels_of(bytes, ImageFormat::HDR32)
    }

    /// Makes the image of the file at `path`, whose contents are `bytes`,
    /// where `lowered` is the lowercase form of `path`.
    pub fn new_with(bytes: &[u8], path: &str, lowered: &str, file_name: &str) -> (built: Result<
        (Image, TextureUpload),
        AssetError,
    >)
        ensures
            is_build_outcome(
                bytes@,
                spec_info_of(path.spec_bytes(), lowered.spec_bytes(), file_name@),
                built_view(built),
            ),
    {
        let declared = image_format_with(path, lowered);
        let decoded = match declared {
            ImageFormat::HDR16 | ImageFormat::HDR32 => Image::create_hdr_image(bytes),
            ImageFormat::RGB => Image::create_normal_image(bytes),
            ImageFormat::SRGB => Image::create_color_image(bytes),
        };
        let (image_bytes, texture_extent, format) = match decoded {
            Ok(pixels) => pixels,
            Err(e) => {
                return Err(e);
            },
        };
        let upload = match create_texture(
            texture_extent.width,
            texture_extent.height,
            format,
            image_bytes,
        ) {
            Ok(upload) => upload,
            Err(e) => {
                return Err(e);
            },
        };
        let image_info = Arc::new(ImageInfo { file: file_name.to_owned(), format: declared });
        Ok((Image { image_info, extent: texture_extent, format }, upload))
    }

    /// Makes the image of the file at `path`, whose contents are `bytes`.
    /// The path decides how the pixels are read: a Radiance file as high
    /// dynamic range, a normal or metallic map as linear data, anything
    /// else as sRGB colour. `file_name` is recorded as the image's declared
    /// file.
    ///
    /// Fails with `Decode` where the bytes cannot be decoded, and with
    /// `Upload` where the file can be but a row of the picture is too long
    /// to be copied.
    pub fn new(bytes: &[u8], path: &str, file_name: &str) -> (built: Result<
        (Image, TextureUpload),
        AssetError,
    >)
        ensures
            is_build_outcome(
                bytes@,
                spec_info_of(path.spec_bytes(), encode_utf8(lowercase(path@)), file_name@),
                built_view(built),
            ),
    {
        let lowered = to_lowercase(path);
        Image::new_with(bytes, path, lowered.as_str(), file_name)
    }
}

} // verus!
