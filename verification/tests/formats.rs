use render_assets::{ImageFormat, ImageInfo, TextureFormat};

#[test]
fn eight_bit_formats_take_four_bytes_per_pixel() {
    assert_eq!(ImageFormat::SRGB.bytes_per_pixel(), 4);
    assert_eq!(ImageFormat::RGB.bytes_per_pixel(), 4);
}

#[test]
fn float_formats_take_sixteen_bytes_per_pixel() {
    assert_eq!(ImageFormat::HDR16.bytes_per_pixel(), 16);
    assert_eq!(ImageFormat::HDR32.bytes_per_pixel(), 16);
}

#[test]
fn each_declared_format_has_its_texture_format() {
    assert_eq!(ImageFormat::HDR16.texture_format(), TextureFormat::Rgba16Float);
    assert_eq!(ImageFormat::HDR32.texture_format(), TextureFormat::Rgba32Float);
    assert_eq!(ImageFormat::RGB.texture_format(), TextureFormat::Rgba8Unorm);
    assert_eq!(ImageFormat::SRGB.texture_format(), TextureFormat::Rgba8UnormSrgb);
}

#[test]
fn conversion_agrees_with_texture_format() {
    let converted: TextureFormat = ImageFormat::RGB.into();
    assert_eq!(converted, TextureFormat::Rgba8Unorm);
    assert_eq!(TextureFormat::from(ImageFormat::HDR32), TextureFormat::Rgba32Float);
}

#[test]
fn texel_sizes_follow_the_channel_width() {
    assert_eq!(TextureFormat::Rgba8Unorm.bytes_per_pixel(), 4);
    assert_eq!(TextureFormat::Rgba8UnormSrgb.bytes_per_pixel(), 4);
    assert_eq!(TextureFormat::Rgba16Float.bytes_per_pixel(), 16);
    assert_eq!(TextureFormat::Rgba32Float.bytes_per_pixel(), 16);
}

#[test]
fn row_stride_is_width_times_texel_size() {
    assert_eq!(TextureFormat::Rgba8UnormSrgb.bytes_per_row(7), Some(28));
    assert_eq!(TextureFormat::Rgba32Float.bytes_per_row(7), Some(112));
    assert_eq!(TextureFormat::Rgba8Unorm.bytes_per_row(0), Some(0));
}

#[test]
fn row_stride_at_the_limit_of_u32() {
    assert_eq!(TextureFormat::Rgba8Unorm.bytes_per_row(0x3FFF_FFFF), Some(0xFFFF_FFFC));
    assert_eq!(TextureFormat::Rgba8Unorm.bytes_per_row(0x4000_0000), None);
    assert_eq!(TextureFormat::Rgba16Float.bytes_per_row(0x0FFF_FFFF), Some(0xFFFF_FFF0));
    assert_eq!(TextureFormat::Rgba16Float.bytes_per_row(0x1000_0000), None);
}

#[test]
fn image_infos_compare_field_by_field() {
    let a = ImageInfo { file: "rock.png".to_string(), format: ImageFormat::RGB };
    let b = ImageInfo { file: "rock.png".to_string(), format: ImageFormat::RGB };
    let c = ImageInfo { file: "rock.png".to_string(), format: ImageFormat::SRGB };
    assert_eq!(a, b);
    assert_ne!(a, c);
    assert_eq!(a.clone(), a);
}
