//! Asset bookkeeping for a real-time renderer: image formats and decoding,
//! texture upload orders, a name-keyed asset cache with a fallback image, and
//! lazily resolved materials.
//!
//! Nothing in this crate touches the disk or the GPU. Callers hand in bytes
//! and names, and receive plain descriptions of the GPU work to perform.
//!
//! - [`classify`] and [`names`] read file names: what kind of asset a file
//!   holds, and under which name an image is cached.
//! - [`format`], [`pixels`] and [`texture`] turn an image file into pixel
//!   bytes and into the order for their upload.
//! - [`image_asset`] puts the two together for one image.
//! - [`table`], [`material`] and [`manager`] keep the assets of a renderer.
//! - [`bind_group`] plans the bind groups of the resolved materials.

pub mod bind_group;
pub mod classify;
pub mod error;
pub mod format;
pub mod image_asset;
pub mod manager;
pub mod material;
pub mod names;
pub mod pixels;
pub mod table;
pub mod texture;

pub use bind_group::{bind_action, group_name, layout_name, plan_bind_groups, BindGroupAction};
pub use classify::{classify, classify_with, image_format_of, image_format_with, AssetKind};
pub use error::AssetError;
pub use format::{ImageFormat, ImageInfo, ImageInfoView, TextureFormat};
pub use image_asset::{assemble, Image, ImageBuilder, ImageView};
pub use manager::{AssetManager, AssetManagerView};
pub use material::{
    MaterialData, MaterialDataView, MaterialDecl, MaterialDeclView, MaterialHandle, MaterialKind,
    MaterialState, MaterialTable,
};
pub use names::{base_name, logical_name, stem};
pub use pixels::{
    check_picture, decode, decode_picture, decode_radiance, expand_rgb_to_rgba, fits_in_memory,
    hdr_image, ldr_image, radiance_colours, radiance_components, scan_marker_chain, starts_as_jpeg,
    starts_as_radiance, DecodedImage, ALPHA_ONE, MAX_JPEG_HEIGHT,
};
pub use table::NameTable;
pub use texture::{
    create_texture, upload_with_stride, AddressMode, CompareFunction, Extent3d, FilterMode,
    SamplerDescriptor, TextureDataLayout, TextureDescriptor, TextureDimension, TextureUpload,
    TextureUploadView, TextureUsage,
};
