//! Image identity, pixel-layout metadata and the hand-off contracts between a
//! GPU renderer and the host application that supplies its pixels.
//!
//! - [`identity`]: the keys by which images are named.
//! - [`format`]: pixel formats and buffer layout.
//! - [`data`]: the three origins of image content, and which of them go
//!   through the texture cache.
//! - [`blob`]: the request and resolve protocol of images that are rasterized
//!   on demand.
//! - [`external`] and [`output`]: the lock and unlock discipline for buffers
//!   and textures that the host owns.
//! - [`units`] and [`font`]: the plain geometry and the font identities that
//!   the contracts mention.

pub mod blob;
pub mod data;
pub mod external;
pub mod font;
pub mod format;
pub mod identity;
pub mod output;
pub mod units;

pub use crate::blob::{
    BlobImageData, BlobImageDescriptor, BlobImageError, BlobImageRenderer, BlobImageRequest,
    BlobImageResources, BlobImageResult, RasterizedBlobImage,
};
pub use crate::data::{ExternalImageData, ExternalImageType, ImageData};
pub use crate::external::{ExternalImage, ExternalImageHandler, ExternalImageSource};
pub use crate::font::{FontInstanceKey, FontKey, FontTemplate, NativeFontHandle};
pub use crate::format::{ImageDescriptor, ImageFormat};
pub use crate::identity::{ExternalImageId, IdNamespace, ImageKey};
pub use crate::output::OutputImageHandler;
pub use crate::units::{
    DeviceIntSize, DeviceUintPoint, DeviceUintRect, DeviceUintSize, PipelineId, TileOffset,
    TileSize,
};
