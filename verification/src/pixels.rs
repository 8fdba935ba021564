//! Decoding image files into the pixel bytes that are uploaded: four 8-bit
//! channels per pixel for the ordinary formats, four little-endian 32-bit
//! floats per pixel for the high dynamic range formats.
//!
//! The decoders are those of the `image` crate. Before a file reaches one,
//! its declared size is read and bounded, so that no decoder is asked for a
//! picture that cannot be held; a Radiance file is also scanned for a chain
//! of run-length markers that its decoder cannot count.

use vstd::prelude::*;
use crate::error::AssetError;
use crate::format::ImageFormat;

verus! {

#[verifier::external_type_specification]
#[verifier::external_body]
pub struct ExImageError(image::ImageError);

/// The width and height that the header of a Radiance file declares, or
/// `None` where the `image` crate refuses the header.
pub uninterp spec fn radiance_size(bytes: Seq<u8>) -> Option<(u32, u32)>;

/// The pixels of a Radiance file as the `image` crate reads them: four
/// bytes per pixel, three mantissas and the shared exponent; `None` where
/// it reports an error.
pub uninterp spec fn radiance_pixels(bytes: Seq<u8>) -> Option<Seq<u8>>;

/// The width and height that the header of a picture file declares, or
/// `None` where the `image` crate does not know the container or refuses
/// the header.
pub uninterp spec fn picture_size(bytes: Seq<u8>) -> Option<(u32, u32)>;

/// The RGBA8 pixels that the `image` crate decodes from a PNG or JPEG file,
/// where it decodes the file.
pub uninterp spec fn picture_pixels(bytes: Seq<u8>) -> Seq<u8>;

/// Calls `HdrDecoder::new` and `HdrDecoder::metadata` of
/// `image::codecs::hdr`, which read the header only. The contract gives the
/// declared size its name.
#[verifier::external_body]
fn read_radiance_size(bytes: &[u8]) -> (size: Result<(u32, u32), image::ImageError>)
    ensures
        match size {
            Ok(s) => radiance_size(bytes@) == Some(s),
            Err(_) => radiance_size(bytes@) is None,
        },
{
    let meta = image::codecs::hdr::HdrDecoder::new(bytes)?.metadata();
    Ok((meta.width, meta.height))
}

/// Calls `HdrDecoder::new` and `HdrDecoder::read_image_native` of
/// `image::codecs::hdr`, and lays the pixels out flat. The pixel vector
/// must be allocatable, and the file free of a marker chain, on which the
/// decoder's run length overflows. The contract gives the pixels their name
/// and says that there are as many as the header declares.
#[verifier::external_body]
fn read_radiance_pixels(bytes: &[u8]) -> (pixels: Result<Vec<u8>, image::ImageError>)
    requires
        radiance_size(bytes@) matches Some(s) ==> 4 * s.0 * s.1 <= isize::MAX,
        !has_marker_chain(bytes@),
    ensures
        match pixels {
            Ok(p) => radiance_pixels(bytes@) == Some(p@),
            Err(_) => radiance_pixels(bytes@) is None,
        },
        pixels matches Ok(p) ==> radiance_size(bytes@) matches Some(s) && p@.len() == 4 * s.0
            * s.1,
{
    let mut flat = Vec::new();
    for pixel in image::codecs::hdr::HdrDecoder::new(bytes)?.read_image_native()? {
        flat.push(pixel.c[0]);
        flat.push(pixel.c[1]);
        flat.push(pixel.c[2]);
        flat.push(pixel.e);
    }
    Ok(flat)
}

/// Calls `Rgbe8Pixel::to_hdr` of `image::codecs::hdr` and hands the three
/// colour components out as their bit patterns. The values go through
/// `exp2`, so the contract holds only what holds of every outcome: a zero
/// exponent gives black, and equal mantissas give equal components.
#[verifier::external_body]
fn radiance_to_bits(r: u8, g: u8, b: u8, e: u8) -> (bits: (u32, u32, u32))
    ensures
        e == 0 ==> bits == (0u32, 0u32, 0u32),
        r == g ==> bits.0 == bits.1,
        g == b ==> bits.1 == bits.2,
        r == b ==> bits.0 == bits.2,
{
    let rgb = image::codecs::hdr::Rgbe8Pixel { c: [r, g, b], e }.to_hdr();
    (rgb[0].to_bits(), rgb[1].to_bits(), rgb[2].to_bits())
}

/// Calls `Rgbe8Pixel::to_ldr` of `image::codecs::hdr`, which maps a pixel
/// to 8-bit colour with a gamma of 2.2. The values go through `exp2` and
/// `powf`, whose precision may differ from one call to the next, so
/// nothing is promised of the result.
#[verifier::external_body]
fn radiance_to_ldr(r: u8, g: u8, b: u8, e: u8) -> (rgb: (u8, u8, u8))
{
    let rgb = image::codecs::hdr::Rgbe8Pixel { c: [r, g, b], e }.to_ldr::<u8>();
    (rgb[0], rgb[1], rgb[2])
}

/// Calls `Reader::new`, `Reader::with_guessed_format` and
/// `Reader::into_dimensions` of `image::io`, which read the header only.
/// The contract gives the declared size its name.
#[verifier::external_body]
fn read_picture_size(bytes: &[u8]) -> (size: Result<(u32, u32), image::ImageError>)
    ensures
        match size {
            Ok(s) => picture_size(bytes@) == Some(s),
            Err(_) => picture_size(bytes@) is None,
        },
{
    image::io::Reader::new(std::io::Cursor::new(bytes)).with_guessed_format()?.into_dimensions()
}

/// Calls `image::load_from_memory`, converts the picture with
/// `DynamicImage::to_rgba8` and takes it apart with `ImageBuffer::dimensions`
/// and `ImageBuffer::into_raw`. The file must not be a Radiance file, the
/// decoded picture must be allocatable at eight bytes per pixel, and a
/// JPEG file must not be so high that the decoder's row count overflows.
/// The JPEG decoder works on threads of its own, so nothing is promised of
/// success. A picture that comes back has the size that the header
/// declares and four bytes for each pixel, and the contract gives its
/// pixels their name.
#[verifier::external_body]
fn decode_rgba8(bytes: &[u8]) -> (decoded: Result<(Vec<u8>, u32, u32), image::ImageError>)
    requires
        !is_radiance(bytes@),
        !picture_is_refused(bytes@),
    ensures
        decoded matches Ok(d) ==> {
            &&& picture_size(bytes@) == Some((d.1, d.2))
            &&& d.0@ == picture_pixels(bytes@)
            &&& d.0@.len() == 4 * d.1 * d.2
        },
{
    let picture = image::load_from_memory(bytes)?.to_rgba8();
    let (width, height) = picture.dimensions();
    Ok((picture.into_raw(), width, height))
}

/// The signature that a Radiance file begins with: `#?RADIANCE`.
pub open spec fn radiance_signature() -> Seq<u8> {
    seq![0x23u8, 0x3F, 0x52, 0x41, 0x44, 0x49, 0x41, 0x4E, 0x43, 0x45]
}

/// Whether a file begins with the signature of a Radiance file.
pub open spec fn is_radiance(bytes: Seq<u8>) -> bool {
    bytes.len() >= 10 && bytes.subrange(0, 10) == radiance_signature()
}

/// Whether four bytes at `at` read as a run-length marker of the old
/// Radiance encoding: three mantissas of one.
pub open spec fn is_marker_at(bytes: Seq<u8>, at: int) -> bool {
    &&& 0 <= at
    &&& at + 4 <= bytes.len()
    &&& bytes[at] == 1
    &&& bytes[at + 1] == 1
    &&& bytes[at + 2] == 1
}

/// The number of consecutive markers at which a run length no longer fits
/// a `usize`: each marker counts in a digit of base 256.
pub open spec fn chain_limit() -> int {
    usize::BITS as int / 8
}

/// Whether the pixel `k` places after `at` reads as a marker.
pub open spec fn is_marker_after(bytes: Seq<u8>, at: int, k: int) -> bool {
    is_marker_at(bytes, at + 4 * k)
}

/// Whether [`chain_limit`] markers follow one another from `at`.
pub open spec fn is_chain_at(bytes: Seq<u8>, at: int) -> bool {
    forall|k: int| 0 <= k < chain_limit() ==> #[trigger] is_marker_after(bytes, at, k)
}

/// Whether a file holds, anywhere, a chain of markers too long to count.
pub open spec fn has_marker_chain(bytes: Seq<u8>) -> bool {
    exists|at: int| 0 <= at && #[trigger] is_chain_at(bytes, at)
}

/// Whether a file begins with the signature of a Radiance file.
pub fn starts_as_radiance(bytes: &[u8]) -> (found: bool)
    ensures
        found == is_radiance(bytes@),
{
    if bytes.len() < 10 {
        return false;
    }
    let found = bytes[0] == 0x23 && bytes[1] == 0x3F && bytes[2] == 0x52 && bytes[3] == 0x41
        && bytes[4] == 0x44 && bytes[5] == 0x49 && bytes[6] == 0x41 && bytes[7] == 0x4E
        && bytes[8] == 0x43 && bytes[9] == 0x45;
    proof {
        let head = bytes@.subrange(0, 10);
        let sig = radiance_signature();
        if found {
            assert(head =~= sig);
        } else {
            assert(exists|i: int| 0 <= i < 10 && head[i] != sig[i]) by {
                assert(head[0] == bytes[0] && head[1] == bytes[1] && head[2] == bytes[2]
                    && head[3] == bytes[3] && head[4] == bytes[4] && head[5] == bytes[5]
                    && head[6] == bytes[6] && head[7] == bytes[7] && head[8] == bytes[8]
                    && head[9] == bytes[9]);
            }
        }
    }
    found
}

fn chain_starts_at(bytes: &[u8], at: usize, limit: usize) -> (found: bool)
    requires
        limit == chain_limit(),
        at + 4 * limit <= bytes.len(),
    ensures
        found == is_chain_at(bytes@, at as int),
{
    let mut k: usize = 0;
    while k < limit
        invariant
            limit == chain_limit(),
            at + 4 * limit <= bytes.len(),
            k <= limit,
            forall|j: int| 0 <= j < k ==> #[trigger] is_marker_after(bytes@, at as int, j),
        decreases limit - k,
    {
        let p = at + 4 * k;
        if !(bytes[p] == 1 && bytes[p + 1] == 1 && bytes[p + 2] == 1) {
            assert(!is_marker_after(bytes@, at as int, k as int));
            return false;
        }
        k += 1;
    }
    true
}

/// Whether a file holds a chain of run-length markers too long to count.
pub fn scan_marker_chain(bytes: &[u8]) -> (found: bool)
    ensures
        found == has_marker_chain(bytes@),
{
    let limit: usize = if usize::BITS == 32 {
        4
    } else {
        8
    };
    assert(limit == chain_limit());
    if bytes.len() < 4 * limit {
        assert forall|at: int| 0 <= at implies !is_chain_at(bytes@, at) by {
            assert(!is_marker_after(bytes@, at, limit - 1));
        }
        return false;
    }
    let last: usize = bytes.len() - 4 * limit;
    let mut at: usize = 0;
    loop
        invariant
            limit == chain_limit(),
            last == bytes.len() - 4 * limit,
            at <= last,
            forall|a: int| 0 <= a < at ==> !is_chain_at(bytes@, a),
        decreases last - at,
    {
        if chain_starts_at(bytes, at, limit) {
            return true;
        }
        if at == last {
            assert forall|a: int| 0 <= a implies !is_chain_at(bytes@, a) by {
                if a > last {
                    assert(!is_marker_after(bytes@, a, limit - 1));
                }
            }
            return false;
        }
        at += 1;
    }
}

/// The bit pattern of the float 1.0, the alpha that every decoded high
/// dynamic range pixel receives.
pub const ALPHA_ONE: u32 = 0x3F80_0000;

/// Byte `k` (0 is the least significant) of `word`.
pub open spec fn le_byte(word: u32, k: int) -> u8 {
    if k == 0 {
        (word % 256) as u8
    } else if k == 1 {
        (word / 256 % 256) as u8
    } else if k == 2 {
        (word / 65536 % 256) as u8
    } else {
        (word / 16777216) as u8
    }
}

/// Channel `channel` of pixel `pixel`: one of the three decoded components,
/// or the constant alpha.
pub open spec fn rgba_word(components: Seq<u32>, pixel: int, channel: int) -> u32 {
    if channel < 3 {
        components[3 * pixel + channel]
    } else {
        ALPHA_ONE
    }
}

/// The upload bytes of RGB float pixels: sixteen bytes per pixel, the three
/// components and the alpha, each as four little-endian bytes.
pub open spec fn rgba_float_bytes(components: Seq<u32>) -> Seq<u8> {
    Seq::new(
        (components.len() / 3 * 16) as nat,
        |i: int| le_byte(rgba_word(components, i / 16, i % 16 / 4), i % 4),
    )
}

/// Expands RGB float components to RGBA bytes. Components beyond the last
/// whole pixel are left out. The expanded bytes must be addressable.
pub fn expand_rgb_to_rgba(components: &Vec<u32>) -> (bytes: Vec<u8>)
    requires
        components.len() / 3 * 16 <= usize::MAX,
    ensures
        bytes@ == rgba_float_bytes(components@),
{
    let pixels: usize = components.len() / 3;
    let mut bytes: Vec<u8> = Vec::new();
    let mut pixel: usize = 0;
    while pixel < pixels
        invariant
            pixels == components.len() / 3,
            pixels * 16 <= usize::MAX,
            pixel <= pixels,
            bytes.len() == pixel * 16,
            forall|i: int|
                0 <= i < bytes.len() ==> bytes[i] == le_byte(
                    rgba_word(components@, i / 16, i % 16 / 4),
                    i % 4,
                ),
        decreases pixels - pixel,
    {
        let mut channel: usize = 0;
        while channel < 4
            invariant
                pixels == components.len() / 3,
                pixels * 16 <= usize::MAX,
                pixel < pixels,
                channel <= 4,
                bytes.len() == pixel * 16 + channel * 4,
                forall|i: int|
                    0 <= i < bytes.len() ==> bytes[i] == le_byte(
                        rgba_word(components@, i / 16, i % 16 / 4),
                        i % 4,
                    ),
            decreases 4 - channel,
        {
            let word: u32 = if channel < 3 {
                components[3 * pixel + channel]
            } else {
                ALPHA_ONE
            };
            bytes.push((word % 256) as u8);
            bytes.push((word / 256 % 256) as u8);
            bytes.push((word / 65536 % 256) as u8);
            bytes.push((word / 16777216) as u8);
            channel += 1;
        }
        pixel += 1;
    }
    assert(bytes@ =~= rgba_float_bytes(components@));
    bytes
}

/// Mantissa `c` (0, 1 or 2) of Radiance pixel `p`.
pub open spec fn mantissa(pixels: Seq<u8>, p: int, c: int) -> u8 {
    pixels[4 * p + c]
}

/// The exponent of Radiance pixel `p`.
pub open spec fn exponent(pixels: Seq<u8>, p: int) -> u8 {
    pixels[4 * p + 3]
}

/// Component `c` (0, 1 or 2) of float pixel `p`.
pub open spec fn component(components: Seq<u32>, p: int, c: int) -> u32 {
    components[3 * p + c]
}

/// Channel `c` (0 to 3) of RGBA8 pixel `p`.
pub open spec fn channel(colours: Seq<u8>, p: int, c: int) -> u8 {
    colours[4 * p + c]
}

/// Whether `components` are float components for the Radiance pixels
/// `pixels`: three for each pixel, zero where the exponent is zero, and
/// equal within a pixel where the mantissas are equal.
pub open spec fn are_components_of(components: Seq<u32>, pixels: Seq<u8>) -> bool {
    &&& components.len() == pixels.len() / 4 * 3
    &&& forall|p: int, c: int|
        #![trigger component(components, p, c)]
        0 <= p < pixels.len() / 4 && 0 <= c < 3 && exponent(pixels, p) == 0 ==> component(
            components,
            p,
            c,
        ) == 0
    &&& forall|p: int, c: int, d: int|
        #![trigger component(components, p, c), component(components, p, d)]
        0 <= p < pixels.len() / 4 && 0 <= c < 3 && 0 <= d < 3 && mantissa(pixels, p, c)
            == mantissa(pixels, p, d) ==> component(components, p, c) == component(
            components,
            p,
            d,
        )
}

/// Whether `colours` are opaque RGBA8 colours for the Radiance pixels
/// `pixels`: four bytes for each pixel, the last of them 255.
pub open spec fn are_colours_of(colours: Seq<u8>, pixels: Seq<u8>) -> bool {
    &&& colours.len() == pixels.len() / 4 * 4
    &&& forall|p: int|
        #![trigger channel(colours, p, 3)]
        0 <= p < pixels.len() / 4 ==> channel(colours, p, 3) == 255
}

/// Converts Radiance pixels, four bytes each, to float components. Bytes
/// beyond the last whole pixel are left out.
pub fn radiance_components(pixels: &Vec<u8>) -> (components: Vec<u32>)
    ensures
        are_components_of(components@, pixels@),
{
    let count: usize = pixels.len() / 4;
    let mut components: Vec<u32> = Vec::new();
    let mut p: usize = 0;
    while p < count
        invariant
            count == pixels.len() / 4,
            p <= count,
            components.len() == p * 3,
            forall|q: int, c: int|
                #![trigger component(components@, q, c)]
                0 <= q < p && 0 <= c < 3 && exponent(pixels@, q) == 0 ==> component(
                    components@,
                    q,
                    c,
                ) == 0,
            forall|q: int, c: int, d: int|
                #![trigger component(components@, q, c), component(components@, q, d)]
                0 <= q < p && 0 <= c < 3 && 0 <= d < 3 && mantissa(pixels@, q, c) == mantissa(
                    pixels@,
                    q,
                    d,
                ) ==> component(components@, q, c) == component(components@, q, d),
        decreases count - p,
    {
        let bits = radiance_to_bits(
            pixels[4 * p],
            pixels[4 * p + 1],
            pixels[4 * p + 2],
            pixels[4 * p + 3],
        );
        let ghost before = components@;
        components.push(bits.0);
        components.push(bits.1);
        components.push(bits.2);
        proof {
            let now = components@;
            assert(component(now, p as int, 0) == bits.0);
            assert(component(now, p as int, 1) == bits.1);
            assert(component(now, p as int, 2) == bits.2);
            assert forall|q: int, c: int|
                0 <= q < p + 1 && 0 <= c < 3 && exponent(pixels@, q) == 0 implies #[trigger] component(
                now,
                q,
                c,
            ) == 0 by {
                if q < p {
                    assert(component(now, q, c) == component(before, q, c));
                }
            }
            assert forall|q: int, c: int, d: int|
                0 <= q < p + 1 && 0 <= c < 3 && 0 <= d < 3 && mantissa(pixels@, q, c) == mantissa(
                    pixels@,
                    q,
                    d,
                ) implies #[trigger] component(now, q, c) == #[trigger] component(now, q, d) by {
                if q < p {
                    assert(component(now, q, c) == component(before, q, c));
                    assert(component(now, q, d) == component(before, q, d));
                }
            }
        }
        p += 1;
    }
    components
}

/// Converts Radiance pixels, four bytes each, to opaque RGBA8 colours.
/// Bytes beyond the last whole pixel are left out.
pub fn radiance_colours(pixels: &Vec<u8>) -> (colours: Vec<u8>)
    ensures
        are_colours_of(colours@, pixels@),
{
    let count: usize = pixels.len() / 4;
    let mut colours: Vec<u8> = Vec::new();
    let mut p: usize = 0;
    while p < count
        invariant
            count == pixels.len() / 4,
            p <= count,
            colours.len() == p * 4,
            forall|q: int| #![trigger channel(colours@, q, 3)] 0 <= q < p ==> channel(
                colours@,
                q,
                3,
            ) == 255,
        decreases count - p,
    {
        let rgb = radiance_to_ldr(
            pixels[4 * p],
            pixels[4 * p + 1],
            pixels[4 * p + 2],
            pixels[4 * p + 3],
        );
        let ghost before = colours@;
        colours.push(rgb.0);
        colours.push(rgb.1);
        colours.push(rgb.2);
        colours.push(255);
        proof {
            let now = colours@;
            assert(channel(now, p as int, 3) == 255);
            assert forall|q: int| 0 <= q < p + 1 implies #[trigger] channel(now, q, 3) == 255 by {
                if q < p {
                    assert(channel(now, q, 3) == channel(before, q, 3));
                }
            }
        }
        p += 1;
    }
    colours
}

/// A decoded image: its pixel bytes, row after row, and its size.
#[derive(Clone, Debug, PartialEq, Eq)]
pub struct DecodedImage {
    pub bytes: Vec<u8>,
    pub width: u32,
    pub height: u32,
}

/// The mathematical content of a [`DecodedImage`].
pub struct DecodedImageView {
    pub bytes: Seq<u8>,
    pub width: u32,
    pub height: u32,
}

impl View for DecodedImage {
    type V = DecodedImageView;

    open spec fn view(&self) -> DecodedImageView {
        DecodedImageView { bytes: self.bytes@, width: self.width, height: self.height }
    }
}

/// What becomes of RGBA8 pixels that a decoder delivered: the image, provided
/// that there are four bytes for each of its pixels.
pub open spec fn spec_ldr_image(pixels: Seq<u8>, width: u32, height: u32) -> Result<
    DecodedImageView,
    AssetError,
> {
    if pixels.len() == 4 * width * height {
        Ok(DecodedImageView { bytes: pixels, width, height })
    } else {
        Err(AssetError::Decode)
    }
}

/// What becomes of RGB float components that a decoder delivered: the
/// expanded image, provided that there are three components for each of its
/// pixels and that the expanded bytes can be addressed.
pub open spec fn spec_hdr_image(components: Seq<u32>, width: u32, height: u32) -> Result<
    DecodedImageView,
    AssetError,
> {
    if components.len() == 3 * width * height && 16 * width * height <= usize::MAX {
        Ok(DecodedImageView { bytes: rgba_float_bytes(components), width, height })
    } else {
        Err(AssetError::Decode)
    }
}

/// Whether a file begins as a JPEG file does.
pub open spec fn is_jpeg(bytes: Seq<u8>) -> bool {
    bytes.len() >= 3 && bytes[0] == 0xFF && bytes[1] == 0xD8 && bytes[2] == 0xFF
}

/// The greatest height of a JPEG file whose rows the decoder can count.
pub const MAX_JPEG_HEIGHT: u32 = 65528;

/// Whether the pixels of a Radiance file are read, where a decoded pixel
/// takes `per_pixel` bytes: its header is accepted, a picture of the
/// declared size can be held, no marker chain is too long to count, and
/// its pixels are read without error.
pub open spec fn radiance_reads(bytes: Seq<u8>, per_pixel: int) -> bool {
    &&& radiance_size(bytes) matches Some(s)
    &&& per_pixel * s.0 * s.1 <= isize::MAX
    &&& !has_marker_chain(bytes)
    &&& radiance_pixels(bytes) is Some
}

/// Whether a Radiance file decodes to float pixels.
pub open spec fn radiance_decodes(bytes: Seq<u8>) -> bool {
    radiance_reads(bytes, 16)
}

/// Whether a PNG or JPEG file is refused before it reaches its decoder:
/// its header is refused, a picture of the declared size cannot be held,
/// or it is a JPEG file too high for its decoder.
pub open spec fn picture_is_refused(bytes: Seq<u8>) -> bool {
    match picture_size(bytes) {
        Some(s) => 8 * s.0 * s.1 > isize::MAX || (is_jpeg(bytes) && s.1 > MAX_JPEG_HEIGHT),
        None => true,
    }
}

/// Whether decoding the file `bytes` as `format` is certain to fail.
pub open spec fn decode_is_refused(bytes: Seq<u8>, format: ImageFormat) -> bool {
    if format.is_hdr() {
        !radiance_decodes(bytes)
    } else if is_radiance(bytes) {
        !radiance_reads(bytes, 8)
    } else {
        picture_is_refused(bytes)
    }
}

/// Whether decoding the file `bytes` as `format` is certain to succeed.
/// It never is for a PNG or JPEG file, whose decoder may want for a
/// thread.
pub open spec fn decode_is_owed(bytes: Seq<u8>, format: ImageFormat) -> bool {
    if format.is_hdr() {
        radiance_decodes(bytes)
    } else if is_radiance(bytes) {
        radiance_reads(bytes, 8)
    } else {
        false
    }
}

/// The size that the header of the file `bytes` declares, read as `format`
/// asks.
pub open spec fn declared_size(bytes: Seq<u8>, format: ImageFormat) -> Option<(u32, u32)> {
    if format.is_hdr() || is_radiance(bytes) {
        radiance_size(bytes)
    } else {
        picture_size(bytes)
    }
}

/// Whether the bytes `expanded` are the expansion of float components of
/// the Radiance pixels `pixels`.
pub open spec fn is_expansion_of(expanded: Seq<u8>, pixels: Seq<u8>) -> bool {
    exists|components: Seq<u32>| #[trigger]
        are_components_of(components, pixels) && expanded == rgba_float_bytes(components)
}

/// Whether `pixels` are what the file `bytes` decodes to as `format`: the
/// expansion of float components of a Radiance file's pixels, opaque
/// colours of a Radiance file's pixels, or the pixels of a PNG or JPEG
/// file.
pub open spec fn are_pixels_of(bytes: Seq<u8>, format: ImageFormat, pixels: Seq<u8>) -> bool {
    if format.is_hdr() {
        radiance_pixels(bytes) matches Some(p) && is_expansion_of(pixels, p)
    } else if is_radiance(bytes) {
        radiance_pixels(bytes) matches Some(p) && are_colours_of(pixels, p)
    } else {
        pixels == picture_pixels(bytes)
    }
}

/// Whether `image` is a decoding of the file `bytes` as `format`: it has
/// the size that the file declares, it holds exactly the bytes of its
/// pixels, and these are the file's pixels.
pub open spec fn is_decoding(bytes: Seq<u8>, format: ImageFormat, image: DecodedImageView) -> bool {
    &&& !decode_is_refused(bytes, format)
    &&& declared_size(bytes, format) == Some((image.width, image.height))
    &&& image.bytes.len() == image.width * image.height * format.spec_bytes_per_pixel()
    &&& are_pixels_of(bytes, format, image.bytes)
}

/// What every outcome of decoding the file `bytes` as `format` obeys.
pub open spec fn is_decode_outcome(
    bytes: Seq<u8>,
    format: ImageFormat,
    image: Result<DecodedImageView, AssetError>,
) -> bool {
    &&& image matches Ok(i) ==> is_decoding(bytes, format, i)
    &&& image matches Err(e) ==> e == AssetError::Decode
    &&& decode_is_refused(bytes, format) ==> image is Err
    &&& decode_is_owed(bytes, format) ==> image is Ok
}

/// The view of a decoded image, or the error in its place.
pub open spec fn decoded_view(image: Result<DecodedImage, AssetError>) -> Result<
    DecodedImageView,
    AssetError,
> {
    match image {
        Ok(i) => Ok(i@),
        Err(e) => Err(e),
    }
}

/// Whether `len` is `per_pixel * width * height`, computed without overflow.
fn is_pixel_count(len: usize, width: u32, height: u32, per_pixel: u64) -> (b: bool)
    ensures
        b == (len == per_pixel * width * height),
{
    assert(width * height <= 0xFFFF_FFFF * 0xFFFF_FFFF) by (nonlinear_arith)
        requires
            0 <= width <= 0xFFFF_FFFF,
            0 <= height <= 0xFFFF_FFFF,
    ;
    assert(per_pixel * width * height == (width * height) * per_pixel) by (nonlinear_arith);
    let texels: u64 = width as u64 * height as u64;
    match texels.checked_mul(per_pixel) {
        Some(total) => len as u64 == total,
        None => false,
    }
}

/// Whether a picture of `width` by `height` pixels, each of `per_pixel`
/// bytes, can be held in one allocation.
pub fn fits_in_memory(width: u32, height: u32, per_pixel: u64) -> (fits: bool)
    ensures
        fits == (per_pixel * width * height <= isize::MAX),
{
    assert(width * height <= 0xFFFF_FFFF * 0xFFFF_FFFF) by (nonlinear_arith)
        requires
            0 <= width <= 0xFFFF_FFFF,
            0 <= height <= 0xFFFF_FFFF,
    ;
    assert(per_pixel * width * height == (width * height) * per_pixel) by (nonlinear_arith);
    let texels: u64 = width as u64 * height as u64;
    match texels.checked_mul(per_pixel) {
        Some(total) => total <= isize::MAX as u64,
        None => false,
    }
}

/// Whether a file begins as a JPEG file does.
pub fn starts_as_jpeg(bytes: &[u8]) -> (found: bool)
    ensures
        found == is_jpeg(bytes@),
{
    bytes.len() >= 3 && bytes[0] == 0xFF && bytes[1] == 0xD8 && bytes[2] == 0xFF
}

/// Accepts RGBA8 pixels as an image if their number fits its size.
pub fn ldr_image(pixels: Vec<u8>, width: u32, height: u32) -> (image: Result<
    DecodedImage,
    AssetError,
>)
    ensures
        match spec_ldr_image(pixels@, width, height) {
            Ok(d) => image matches Ok(i) && i@ == d,
            Err(e) => image == Err::<DecodedImage, AssetError>(e),
        },
{
    if is_pixel_count(pixels.len(), width, height, 4) {
        Ok(DecodedImage { bytes: pixels, width, height })
    } else {
        Err(AssetError::Decode)
    }
}

/// Accepts RGB float components as an image if their number fits its size,
/// and expands them to the RGBA bytes that are uploaded.
pub fn hdr_image(components: Vec<u32>, width: u32, height: u32) -> (image: Result<
    DecodedImage,
    AssetError,
>)
    ensures
        match spec_hdr_image(components@, width, height) {
            Ok(d) => image matches Ok(i) && i@ == d,
            Err(e) => image == Err::<DecodedImage, AssetError>(e),
        },
        image matches Ok(i) ==> i.bytes.len() == 16 * width * height,
{
    if !is_pixel_count(components.len(), width, height, 3) {
        return Err(AssetError::Decode);
    }
    let pixels: usize = components.len() / 3;
    assert(pixels == width * height && 16 * width * height == pixels * 16) by (nonlinear_arith)
        requires
            components.len() == 3 * width * height,
            pixels == components.len() / 3,
    ;
    if pixels.checked_mul(16).is_none() {
        return Err(AssetError::Decode);
    }
    let bytes = expand_rgb_to_rgba(&components);
    Ok(DecodedImage { bytes, width, height })
}

/// Reads the pixels of a Radiance file, four bytes each, with the size
/// that its header declares. `per_pixel` is the number of bytes that a
/// decoded pixel will take.
fn read_radiance(bytes: &[u8], per_pixel: u64) -> (read: Result<(Vec<u8>, u32, u32), AssetError>)
    requires
        4 <= per_pixel <= 16,
    ensures
        read is Ok <==> radiance_reads(bytes@, per_pixel as int),
        read matches Ok(r) ==> {
            &&& radiance_size(bytes@) == Some((r.1, r.2))
            &&& radiance_pixels(bytes@) == Some(r.0@)
            &&& r.0@.len() == 4 * r.1 * r.2
        },
        read matches Err(e) ==> e == AssetError::Decode,
{
    let (width, height) = match read_radiance_size(bytes) {
        Ok(size) => size,
        Err(_) => {
            return Err(AssetError::Decode);
        },
    };
    if !fits_in_memory(width, height, per_pixel) || scan_marker_chain(bytes) {
        return Err(AssetError::Decode);
    }
    assert(4 * width * height <= per_pixel * width * height) by (nonlinear_arith)
        requires
            4 <= per_pixel,
    ;
    match read_radiance_pixels(bytes) {
        Ok(pixels) => Ok((pixels, width, height)),
        Err(_) => Err(AssetError::Decode),
    }
}

/// Decodes a Radiance file to RGBA float pixels with an alpha of one.
pub fn decode_radiance(bytes: &[u8]) -> (image: Result<DecodedImage, AssetError>)
    ensures
        is_decode_outcome(bytes@, ImageFormat::HDR32, decoded_view(image)),
{
    let (pixels, width, height) = match read_radiance(bytes, 16) {
        Ok(read) => read,
        Err(e) => {
            return Err(e);
        },
    };
    let components = radiance_components(&pixels);
    assert(components.len() == 3 * width * height) by (nonlinear_arith)
        requires
            pixels.len() == 4 * width * height,
            components.len() == pixels.len() / 4 * 3,
    ;
    let ghost floats = components@;
    let image = hdr_image(components, width, height);
    proof {
        assert(16 * width * height == width * height * 16) by (nonlinear_arith);
        let decoded = image->Ok_0@;
        assert(are_components_of(floats, pixels@) && decoded.bytes == rgba_float_bytes(floats));
        assert(is_expansion_of(decoded.bytes, pixels@));
    }
    image
}

/// Decodes a Radiance file to opaque RGBA8 pixels, with a gamma of 2.2.
fn decode_radiance_picture(bytes: &[u8]) -> (image: Result<DecodedImage, AssetError>)
    requires
        is_radiance(bytes@),
    ensures
        is_decode_outcome(bytes@, ImageFormat::SRGB, decoded_view(image)),
{
    let (pixels, width, height) = match read_radiance(bytes, 8) {
        Ok(read) => read,
        Err(e) => {
            return Err(e);
        },
    };
    let colours = radiance_colours(&pixels);
    assert(colours.len() == width * height * 4) by (nonlinear_arith)
        requires
            pixels.len() == 4 * width * height,
            colours.len() == pixels.len() / 4 * 4,
    ;
    Ok(DecodedImage { bytes: colours, width, height })
}

/// Reads the header of a PNG or JPEG file and answers the size that it
/// declares, unless the file is refused.
pub fn check_picture(bytes: &[u8]) -> (size: Result<(u32, u32), AssetError>)
    ensures
        size is Ok <==> !picture_is_refused(bytes@),
        size matches Ok(s) ==> picture_size(bytes@) == Some(s),
        size matches Err(e) ==> e == AssetError::Decode,
{
    let (width, height) = match read_picture_size(bytes) {
        Ok(size) => size,
        Err(_) => {
            return Err(AssetError::Decode);
        },
    };
    if !fits_in_memory(width, height, 8) {
        return Err(AssetError::Decode);
    }
    if starts_as_jpeg(bytes) && height > MAX_JPEG_HEIGHT {
        return Err(AssetError::Decode);
    }
    Ok((width, height))
}

/// Decodes the pixels of a PNG or JPEG file that was not refused.
pub(crate) fn read_picture(bytes: &[u8]) -> (image: Result<DecodedImage, AssetError>)
    requires
        !is_radiance(bytes@),
        !picture_is_refused(bytes@),
    ensures
        image matches Ok(i) ==> is_decoding(bytes@, ImageFormat::SRGB, i@),
        image matches Err(e) ==> e == AssetError::Decode,
{
    match decode_rgba8(bytes) {
        Ok((pixels, width, height)) => {
            assert(width * height * 4 == 4 * width * height) by (nonlinear_arith);
            Ok(DecodedImage { bytes: pixels, width, height })
        },
        Err(_) => Err(AssetError::Decode),
    }
}

/// Decodes a picture file to RGBA8 pixels: a PNG or JPEG file, or a
/// Radiance file, whose colours are mapped to 8 bits.
pub fn decode_picture(bytes: &[u8]) -> (image: Result<DecodedImage, AssetError>)
    ensures
        is_decode_outcome(bytes@, ImageFormat::SRGB, decoded_view(image)),
{
    if starts_as_radiance(bytes) {
        return decode_radiance_picture(bytes);
    }
    match check_picture(bytes) {
        Ok(_) => read_picture(bytes),
        Err(e) => Err(e),
    }
}

/// Decodes an image file as its declared format asks: a Radiance file for
/// the high dynamic range formats, a picture file otherwise.
///
/// Every failure is `Decode`. A Radiance file decodes exactly when its
/// pixels are read. Of a PNG or JPEG file only the cases of certain
/// failure are fixed: its decoder may also fail for want of a thread. On
/// success the image has the size that the file declares and holds
/// exactly `width * height` pixels of the format's size.
pub fn decode(bytes: &[u8], format: ImageFormat) -> (image: Result<DecodedImage, AssetError>)
    ensures
        is_decode_outcome(bytes@, format, decoded_view(image)),
{
    match format {
        ImageFormat::HDR16 | ImageFormat::HDR32 => decode_radiance(bytes),
        ImageFormat::RGB | ImageFormat::SRGB => decode_picture(bytes),
    }
}

} // verus!
