use render_assets::{
    check_picture, decode, decode_picture, decode_radiance, expand_rgb_to_rgba, fits_in_memory,
    hdr_image, ldr_image, radiance_colours, radiance_components, scan_marker_chain,
    starts_as_jpeg, starts_as_radiance, AssetError, DecodedImage, ImageFormat, ALPHA_ONE,
    MAX_JPEG_HEIGHT,
};

fn decoding_jpeg_header(height: u16, width: u16) -> Vec<u8> {
    let mut file = vec![0xFF, 0xD8, 0xFF, 0xC0, 0x00, 0x0B, 0x08];
    file.extend_from_slice(&height.to_be_bytes());
    file.extend_from_slice(&width.to_be_bytes());
    file.extend_from_slice(&[0x01, 0x01, 0x11, 0x00]);
    file
}

fn decoding_header(height: &str, width: &str) -> Vec<u8> {
    format!("#?RADIANCE\nFORMAT=32-bit_rle_rgbe\n\n-Y {} +X {}\n", height, width).into_bytes()
}

fn decoding_rgb_png() -> Vec<u8> {
    vec![
        137, 80, 78, 71, 13, 10, 26, 10, 0, 0, 0, 13, 73, 72, 68, 82, 0, 0, 0, 2, 0, 0, 0, 1, 8,
        2, 0, 0, 0, 123, 64, 232, 221, 0, 0, 0, 15, 73, 68, 65, 84, 120, 218, 99, 248, 207, 192,
        192, 208, 240, 31, 0, 8, 0, 2, 127, 37, 62, 252, 9, 0, 0, 0, 0, 73, 69, 78, 68, 174, 66,
        96, 130,
    ]
}

fn decoding_rgba_png() -> Vec<u8> {
    vec![
        137, 80, 78, 71, 13, 10, 26, 10, 0, 0, 0, 13, 73, 72, 68, 82, 0, 0, 0, 1, 0, 0, 0, 2, 8,
        6, 0, 0, 0, 153, 129, 182, 39, 0, 0, 0, 18, 73, 68, 65, 84, 120, 218, 99, 96, 100, 98,
        102, 97, 96, 101, 99, 231, 0, 0, 0, 140, 0, 37, 210, 32, 80, 25, 0, 0, 0, 0, 73, 69, 78,
        68, 174, 66, 96, 130,
    ]
}

fn decoding_radiance() -> Vec<u8> {
    let mut file = b"#?RADIANCE\nFORMAT=32-bit_rle_rgbe\n\n-Y 1 +X 2\n".to_vec();
    file.extend_from_slice(&[128, 64, 32, 129, 0, 0, 0, 0]);
    file
}

#[test]
fn a_png_without_alpha_decodes_to_opaque_rgba() {
    let image = decode(&decoding_rgb_png(), ImageFormat::SRGB).unwrap();
    assert_eq!(
        image,
        DecodedImage { bytes: vec![255, 0, 0, 255, 0, 128, 255, 255], width: 2, height: 1 }
    );
}

#[test]
fn a_png_with_alpha_keeps_its_alpha() {
    let image = decode(&decoding_rgba_png(), ImageFormat::RGB).unwrap();
    assert_eq!(image, DecodedImage { bytes: vec![1, 2, 3, 4, 5, 6, 7, 8], width: 1, height: 2 });
}

#[test]
fn a_radiance_file_decodes_to_float_rgba_with_alpha_one() {
    let image = decode(&decoding_radiance(), ImageFormat::HDR32).unwrap();
    assert_eq!(image.width, 2);
    assert_eq!(image.height, 1);
    assert_eq!(
        image.bytes,
        vec![
            0, 0, 0x80, 0x3F, 0, 0, 0, 0x3F, 0, 0, 0x80, 0x3E, 0, 0, 0x80, 0x3F, 0, 0, 0, 0, 0, 0,
            0, 0, 0, 0, 0, 0, 0, 0, 0x80, 0x3F,
        ]
    );
}

#[test]
fn decoded_floats_read_back_as_the_pixel_values() {
    let image = decode(&decoding_radiance(), ImageFormat::HDR16).unwrap();
    let floats: Vec<f32> = image
        .bytes
        .chunks(4)
        .map(|b| f32::from_le_bytes([b[0], b[1], b[2], b[3]]))
        .collect();
    assert_eq!(floats, vec![1.0, 0.5, 0.25, 1.0, 0.0, 0.0, 0.0, 1.0]);
}

#[test]
fn decoded_length_is_width_times_height_times_pixel_size() {
    for format in [ImageFormat::SRGB, ImageFormat::RGB] {
        let image = decode(&decoding_rgb_png(), format).unwrap();
        let expected = image.width * image.height * format.bytes_per_pixel();
        assert_eq!(image.bytes.len(), expected as usize);
        assert_eq!(image.bytes.len(), 8);
    }
    for format in [ImageFormat::HDR16, ImageFormat::HDR32] {
        let image = decode(&decoding_radiance(), format).unwrap();
        let expected = image.width * image.height * format.bytes_per_pixel();
        assert_eq!(image.bytes.len(), expected as usize);
        assert_eq!(image.bytes.len(), 32);
    }
}

#[test]
fn malformed_bytes_are_a_decode_error() {
    assert_eq!(decode(b"not an image", ImageFormat::SRGB), Err(AssetError::Decode));
    assert_eq!(decode(b"not an image", ImageFormat::HDR32), Err(AssetError::Decode));
    assert_eq!(decode(&[], ImageFormat::RGB), Err(AssetError::Decode));
}

#[test]
fn a_truncated_png_is_a_decode_error() {
    let png = decoding_rgb_png();
    assert_eq!(decode(&png[..40], ImageFormat::SRGB), Err(AssetError::Decode));
}

#[test]
fn a_radiance_file_is_known_by_its_signature() {
    assert!(starts_as_radiance(&decoding_radiance()));
    assert!(!starts_as_radiance(&decoding_rgb_png()));
    assert!(!starts_as_radiance(b"#?RADIANC"));
    assert!(!starts_as_radiance(b"#?RADIANCX"));
    assert!(starts_as_radiance(b"#?RADIANCE"));
}

#[test]
fn a_radiance_file_read_as_a_picture_is_mapped_to_8_bits() {
    let image = decode(&decoding_radiance(), ImageFormat::SRGB).unwrap();
    assert_eq!((image.width, image.height), (2, 1));
    assert_eq!(image.bytes, vec![255, 55, 12, 255, 0, 0, 0, 255]);
    assert_eq!(decode_picture(&decoding_radiance()), Ok(image));
}

#[test]
fn colours_of_radiance_pixels_are_opaque() {
    let colours = radiance_colours(&vec![128, 128, 128, 129, 0, 0, 0, 0, 9]);
    assert_eq!(colours, vec![255, 255, 255, 255, 0, 0, 0, 255]);
    assert_eq!(radiance_colours(&vec![1, 2, 3]), Vec::<u8>::new());
}

#[test]
fn a_chain_of_run_markers_fails_a_picture_too() {
    let mut file = decoding_header("1", "2");
    file.extend_from_slice(&[0, 0, 0, 0]);
    for _ in 0..8 {
        file.extend_from_slice(&[1, 1, 1, 0]);
    }
    assert_eq!(decode(&file, ImageFormat::RGB), Err(AssetError::Decode));
}

#[test]
fn a_jpeg_too_high_for_its_decoder_is_a_decode_error() {
    assert_eq!(MAX_JPEG_HEIGHT, 65528);
    for height in [65529u16, 65535] {
        let file = decoding_jpeg_header(height, 1);
        assert!(starts_as_jpeg(&file));
        assert_eq!(check_picture(&file), Err(AssetError::Decode));
        assert_eq!(decode(&file, ImageFormat::SRGB), Err(AssetError::Decode));
    }
}

#[test]
fn a_jpeg_header_of_the_greatest_height_passes() {
    let file = decoding_jpeg_header(65528, 3);
    assert_eq!(check_picture(&file), Ok((3, 65528)));
    assert_eq!(decode(&file, ImageFormat::SRGB), Err(AssetError::Decode));
}

#[test]
fn the_header_of_a_picture_gives_its_size() {
    assert_eq!(check_picture(&decoding_rgb_png()), Ok((2, 1)));
    assert_eq!(check_picture(&decoding_rgba_png()), Ok((1, 2)));
    assert_eq!(check_picture(b"garbage"), Err(AssetError::Decode));
    assert!(!starts_as_jpeg(&decoding_rgb_png()));
    assert!(!starts_as_jpeg(&[0xFF, 0xD8]));
}

#[test]
fn a_decoded_picture_has_the_size_that_its_header_declares() {
    for file in [decoding_rgb_png(), decoding_rgba_png()] {
        let (width, height) = check_picture(&file).unwrap();
        let image = decode(&file, ImageFormat::SRGB).unwrap();
        assert_eq!((image.width, image.height), (width, height));
        assert_eq!(image.bytes.len(), (width * height * 4) as usize);
        assert_eq!(decode(&file, ImageFormat::RGB), Ok(image));
    }
}

#[test]
fn a_chain_of_run_markers_is_a_decode_error() {
    let mut file = decoding_header("1", "2");
    file.extend_from_slice(&[0, 0, 0, 0]);
    for _ in 0..8 {
        file.extend_from_slice(&[1, 1, 1, 0]);
    }
    assert!(scan_marker_chain(&file));
    assert_eq!(decode(&file, ImageFormat::HDR32), Err(AssetError::Decode));
    assert_eq!(decode_radiance(&file), Err(AssetError::Decode));
}

#[test]
fn a_chain_is_found_wherever_it_lies() {
    let chain: Vec<u8> = [1u8, 1, 1, 9].iter().cycle().take(32).cloned().collect();
    assert!(scan_marker_chain(&chain));
    let mut shifted = vec![7u8, 7, 7];
    shifted.extend_from_slice(&chain);
    shifted.push(7);
    assert!(scan_marker_chain(&shifted));
    assert!(!scan_marker_chain(&chain[..31]));
    let mut broken = chain.clone();
    broken[13] = 2;
    assert!(!scan_marker_chain(&broken));
    assert!(!scan_marker_chain(&[]));
    assert!(!scan_marker_chain(&decoding_radiance()));
}

#[test]
fn a_short_run_of_markers_is_a_run() {
    let mut file = decoding_header("1", "4");
    file.extend_from_slice(&[128, 64, 32, 129]);
    file.extend_from_slice(&[1, 1, 1, 3]);
    let image = decode(&file, ImageFormat::HDR32).unwrap();
    assert_eq!((image.width, image.height), (4, 1));
    assert_eq!(image.bytes.len(), 64);
    assert_eq!(image.bytes[..16], image.bytes[48..]);
}

#[test]
fn a_picture_too_large_to_hold_is_a_decode_error() {
    let file = decoding_header("2000000000", "2000000000");
    assert_eq!(decode(&file, ImageFormat::HDR32), Err(AssetError::Decode));
    assert!(!fits_in_memory(2000000000, 2000000000, 16));
    assert!(!fits_in_memory(u32::MAX, u32::MAX, 8));
    assert!(fits_in_memory(4096, 4096, 16));
    assert!(fits_in_memory(0, u32::MAX, 16));
}

#[test]
fn a_zero_exponent_is_black() {
    assert_eq!(radiance_components(&vec![200, 100, 50, 0]), vec![0, 0, 0]);
    assert_eq!(
        radiance_components(&vec![128, 64, 32, 129, 9, 9, 9, 0, 7]),
        vec![0x3F80_0000, 0x3F00_0000, 0x3E80_0000, 0, 0, 0]
    );
    assert_eq!(radiance_components(&vec![1, 2, 3]), Vec::<u32>::new());
}

#[test]
fn a_png_is_no_radiance_file() {
    assert_eq!(decode(&decoding_rgb_png(), ImageFormat::HDR32), Err(AssetError::Decode));
}

#[test]
fn a_radiance_file_cut_short_is_a_decode_error() {
    let file = decoding_radiance();
    assert_eq!(decode(&file[..file.len() - 3], ImageFormat::HDR32), Err(AssetError::Decode));
}

#[test]
fn expansion_appends_alpha_one_to_every_pixel() {
    let bytes = expand_rgb_to_rgba(&vec![0x0102_0304, 0, 0xFFFF_FFFF]);
    assert_eq!(
        bytes,
        vec![4, 3, 2, 1, 0, 0, 0, 0, 0xFF, 0xFF, 0xFF, 0xFF, 0, 0, 0x80, 0x3F]
    );
    assert_eq!(ALPHA_ONE, 1.0f32.to_bits());
}

#[test]
fn expansion_of_nothing_is_nothing() {
    assert_eq!(expand_rgb_to_rgba(&Vec::new()), Vec::<u8>::new());
}

#[test]
fn expansion_ignores_an_incomplete_pixel() {
    assert_eq!(expand_rgb_to_rgba(&vec![1, 2]), Vec::<u8>::new());
    assert_eq!(expand_rgb_to_rgba(&vec![1, 2, 3, 4]).len(), 16);
}

#[test]
fn pixels_that_do_not_fit_the_size_are_a_decode_error() {
    assert_eq!(ldr_image(vec![0; 7], 2, 1), Err(AssetError::Decode));
    assert_eq!(ldr_image(vec![0; 9], 2, 1), Err(AssetError::Decode));
    assert_eq!(
        ldr_image(vec![0; 8], 2, 1),
        Ok(DecodedImage { bytes: vec![0; 8], width: 2, height: 1 })
    );
    assert_eq!(ldr_image(vec![0; 8], u32::MAX, u32::MAX), Err(AssetError::Decode));
}

#[test]
fn components_that_do_not_fit_the_size_are_a_decode_error() {
    assert_eq!(hdr_image(vec![0; 5], 2, 1), Err(AssetError::Decode));
    assert_eq!(hdr_image(vec![0; 6], 1, 1), Err(AssetError::Decode));
    let image = hdr_image(vec![0; 6], 2, 1).unwrap();
    assert_eq!(image.bytes.len(), 32);
    assert_eq!((image.width, image.height), (2, 1));
}

#[test]
fn an_empty_picture_has_no_bytes() {
    assert_eq!(
        ldr_image(Vec::new(), 0, 5),
        Ok(DecodedImage { bytes: Vec::new(), width: 0, height: 5 })
    );
    assert_eq!(
        hdr_image(Vec::new(), 3, 0),
        Ok(DecodedImage { bytes: Vec::new(), width: 3, height: 0 })
    );
}
