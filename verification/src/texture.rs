//! The order for one texture upload: the texture and sampler to create, the
//! pixel bytes to stage, and how the staged bytes are laid out.
//!
//! An order is a plain value. Whoever owns the GPU device creates the
//! resources it describes and records the copy into the command encoder of
//! the current load pass; nothing is visible to the GPU before that encoder
//! is submitted.

use vstd::prelude::*;
use crate::error::AssetError;
use crate::format::TextureFormat;

verus! {

/// The size of a texture in texels.
#[derive(Clone, Copy, Debug, PartialEq, Eq, Hash, Structural)]
pub struct Extent3d {
    pub width: u32,
    pub height: u32,
    pub depth: u32,
}

#[derive(Clone, Copy, Debug, PartialEq, Eq, Hash, Structural)]
pub enum TextureDimension {
    D1,
    D2,
    D3,
}

/// What a texture may be used for.
#[derive(Clone, Copy, Debug, PartialEq, Eq, Hash, Structural)]
pub struct TextureUsage {
    pub copy_src: bool,
    pub copy_dst: bool,
    pub sampled: bool,
    pub storage: bool,
    pub output_attachment: bool,
}

#[derive(Clone, Copy, Debug, PartialEq, Eq, Hash, Structural)]
pub struct TextureDescriptor {
    pub size: Extent3d,
    pub mip_level_count: u32,
    pub sample_count: u32,
    pub dimension: TextureDimension,
    pub format: TextureFormat,
    pub usage: TextureUsage,
}

/// How the staged pixel bytes map onto the texture's rows.
#[derive(Clone, Copy, Debug, PartialEq, Eq, Hash, Structural)]
pub struct TextureDataLayout {
    pub offset: u64,
    pub bytes_per_row: u32,
    pub rows_per_image: u32,
}

#[derive(Clone, Copy, Debug, PartialEq, Eq, Hash, Structural)]
pub enum AddressMode {
    ClampToEdge,
    Repeat,
    MirrorRepeat,
}

#[derive(Clone, Copy, Debug, PartialEq, Eq, Hash, Structural)]
pub enum FilterMode {
    Nearest,
    Linear,
}

/// How a sampled depth is compared with a reference.
#[derive(Clone, Copy, Debug, PartialEq, Eq, Hash, Structural)]
pub enum CompareFunction {
    Never,
    Less,
    Equal,
    LessEqual,
    Greater,
    NotEqual,
    GreaterEqual,
    Always,
}

/// The sampler that reads a texture. The level-of-detail clamps are whole
/// numbers; `compare` is the depth comparison, if sampling makes one.
#[derive(Clone, Copy, Debug, PartialEq, Eq, Hash, Structural)]
pub struct SamplerDescriptor {
    pub address_mode_u: AddressMode,
    pub address_mode_v: AddressMode,
    pub address_mode_w: AddressMode,
    pub mag_filter: FilterMode,
    pub min_filter: FilterMode,
    pub mipmap_filter: FilterMode,
    pub lod_min_clamp: i32,
    pub lod_max_clamp: i32,
    pub compare: Option<CompareFunction>,
}

/// One texture upload: create `texture` and `sampler`, stage `bytes`, and
/// copy them into mip level `mip_level` of the texture as `layout` says.
#[derive(Clone, Debug, PartialEq, Eq)]
pub struct TextureUpload {
    pub texture: TextureDescriptor,
    pub layout: TextureDataLayout,
    pub mip_level: u32,
    pub sampler: SamplerDescriptor,
    pub bytes: Vec<u8>,
}

/// The mathematical content of a [`TextureUpload`].
pub struct TextureUploadView {
    pub texture: TextureDescriptor,
    pub layout: TextureDataLayout,
    pub mip_level: u32,
    pub sampler: SamplerDescriptor,
    pub bytes: Seq<u8>,
}

impl View for TextureUpload {
    type V = TextureUploadView;

    open spec fn view(&self) -> TextureUploadView {
        TextureUploadView {
            texture: self.texture,
            layout: self.layout,
            mip_level: self.mip_level,
            sampler: self.sampler,
            bytes: self.bytes@,
        }
    }
}

/// The extent of a flat image: one layer deep.
pub open spec fn flat_extent(width: u32, height: u32) -> Extent3d {
    Extent3d { width, height, depth: 1 }
}

/// The texture every image is uploaded into: two-dimensional, one mip level,
/// one sample, readable by shaders and writable by copies.
pub open spec fn image_texture(width: u32, height: u32, format: TextureFormat) -> TextureDescriptor {
    TextureDescriptor {
        size: flat_extent(width, height),
        mip_level_count: 1,
        sample_count: 1,
        dimension: TextureDimension::D2,
        format,
        usage: TextureUsage {
            copy_src: false,
            copy_dst: true,
            sampled: true,
            storage: false,
            output_attachment: false,
        },
    }
}

/// The sampler every image is read through: repeating on all three axes,
/// linear filtering throughout, levels of detail from -100 to 100, no depth
/// comparison.
pub open spec fn image_sampler() -> SamplerDescriptor {
    SamplerDescriptor {
        address_mode_u: AddressMode::Repeat,
        address_mode_v: AddressMode::Repeat,
        address_mode_w: AddressMode::Repeat,
        mag_filter: FilterMode::Linear,
        min_filter: FilterMode::Linear,
        mipmap_filter: FilterMode::Linear,
        lod_min_clamp: -100i32,
        lod_max_clamp: 100i32,
        compare: None,
    }
}

/// The upload of `bytes` as a `width` by `height` image of the given format,
/// when a row's stride is `bytes_per_row`.
pub open spec fn image_upload(
    width: u32,
    height: u32,
    format: TextureFormat,
    bytes_per_row: u32,
    bytes: Seq<u8>,
) -> TextureUploadView {
    TextureUploadView {
        texture: image_texture(width, height, format),
        layout: TextureDataLayout { offset: 0, bytes_per_row, rows_per_image: 0 },
        mip_level: 0,
        sampler: image_sampler(),
        bytes,
    }
}

/// What [`create_texture`] returns: the upload with the stride that the
/// format calls for, or `Upload` when that stride does not fit in a `u32`.
pub open spec fn spec_create_texture(
    width: u32,
    height: u32,
    format: TextureFormat,
    bytes: Seq<u8>,
) -> Result<TextureUploadView, AssetError> {
    match format.spec_bytes_per_row(width) {
        Some(stride) => Ok(image_upload(width, height, format, stride, bytes)),
        None => Err(AssetError::Upload),
    }
}

impl TextureUploadView {
    /// Whether the staged bytes are exactly the texels of the texture, row
    /// after row with no padding.
    pub open spec fn is_tight(self) -> bool {
        &&& self.layout.offset == 0
        &&& self.layout.bytes_per_row == self.texture.format.spec_bytes_per_pixel()
            * self.texture.size.width
        &&& self.bytes.len() == self.texture.size.width * self.texture.size.height
            * self.texture.format.spec_bytes_per_pixel()
    }
}

impl Extent3d {
    /// The extent of a flat image: one layer deep.
    pub fn flat(width: u32, height: u32) -> (extent: Extent3d)
        ensures
            extent == flat_extent(width, height),
    {
        Extent3d { width, height, depth: 1 }
    }
}

/// Describes the upload of `bytes` as an image whose rows are
/// `bytes_per_row` apart.
pub fn upload_with_stride(
    width: u32,
    height: u32,
    format: TextureFormat,
    bytes_per_row: u32,
    bytes: Vec<u8>,
) -> (upload: TextureUpload)
    ensures
        upload@ == image_upload(width, height, format, bytes_per_row, bytes@),
{
    let texture = TextureDescriptor {
        size: Extent3d::flat(width, height),
        mip_level_count: 1,
        sample_count: 1,
        dimension: TextureDimension::D2,
        format,
        usage: TextureUsage {
            copy_src: false,
            copy_dst: true,
            sampled: true,
            storage: false,
            output_attachment: false,
        },
    };
    let layout = TextureDataLayout { offset: 0, bytes_per_row, rows_per_image: 0 };
    let sampler = SamplerDescriptor {
        address_mode_u: AddressMode::Repeat,
        address_mode_v: AddressMode::Repeat,
        address_mode_w: AddressMode::Repeat,
        mag_filter: FilterMode::Linear,
        min_filter: FilterMode::Linear,
        mipmap_filter: FilterMode::Linear,
        lod_min_clamp: -100,
        lod_max_clamp: 100,
        compare: None,
    };
    TextureUpload { texture, layout, mip_level: 0, sampler, bytes }
}

/// Describes the upload of one decoded image. The row stride follows from
/// the format: 4 bytes per texel for the 8-bit formats, 16 for the float
/// formats. The length of `bytes` is not examined here.
pub fn create_texture(width: u32, height: u32, format: TextureFormat, bytes: Vec<u8>) -> (upload:
    Result<TextureUpload, AssetError>)
    ensures
        match spec_create_texture(width, height, format, bytes@) {
            Ok(order) => upload matches Ok(u) && u@ == order,
            Err(e) => upload == Err::<TextureUpload, AssetError>(e),
        },
{
    match format.bytes_per_row(width) {
        Some(stride) => Ok(upload_with_stride(width, height, format, stride, bytes)),
        None => Err(AssetError::Upload),
    }
}

} // verus!
