//! Where the content of an image comes from.

use crate::identity::ExternalImageId;
use std::sync::Arc;
use vstd::prelude::*;

verus! {

/// What kind of host resource stands behind an external image.
#[derive(Clone, Copy, Debug, PartialEq, Eq, Hash, Structural)]
pub enum ExternalImageType {
    /// The handle of a two-dimensional GPU texture.
    Texture2DHandle,
    /// The handle of a two-dimensional array texture.
    Texture2DArrayHandle,
    /// The handle of a rectangle texture.
    TextureRectHandle,
    /// The handle of an external (sampler-external) texture.
    TextureExternalHandle,
    /// A buffer of bytes in host memory.
    ExternalBuffer,
}

impl ExternalImageType {
    /// Whether this is one of the four kinds that name a texture which
    /// already lives on the GPU.
    pub open spec fn is_texture_handle(self) -> bool {
        self == ExternalImageType::Texture2DHandle || self
            == ExternalImageType::Texture2DArrayHandle || self
            == ExternalImageType::TextureRectHandle || self
            == ExternalImageType::TextureExternalHandle
    }
}

/// A reference to an image whose memory the host owns.
///
/// Several planes of one source (the planes of a video frame, say) share an
/// id and differ in `channel_index`.
#[derive(Clone, Copy, Debug, PartialEq, Eq, Hash, Structural)]
pub struct ExternalImageData {
    pub id: ExternalImageId,
    pub channel_index: u8,
    pub image_type: ExternalImageType,
}

/// The content of an image, by origin.
#[derive(Clone, Debug)]
pub enum ImageData {
    /// Pixels, in a buffer that may be shared with other owners.
    Raw(Arc<Vec<u8>>),
    /// A recorded command stream, from which pixels are rasterized on demand.
    Blob(Vec<u8>),
    /// A reference into memory that the host manages.
    External(ExternalImageData),
}

/// What an [`ImageData`] holds, as mathematical values.
pub enum ImageDataView {
    Raw(Seq<u8>),
    Blob(Seq<u8>),
    External(ExternalImageData),
}

impl View for ImageData {
    type V = ImageDataView;

    open spec fn view(&self) -> ImageDataView {
        match self {
            ImageData::Raw(bytes) => ImageDataView::Raw(bytes@),
            ImageData::Blob(commands) => ImageDataView::Blob(commands@),
            ImageData::External(external) => ImageDataView::External(*external),
        }
    }
}

impl ImageData {
    /// Raw data that owns `bytes`.
    pub open spec fn spec_new(bytes: Vec<u8>) -> ImageData {
        ImageData::Raw(Arc::new(bytes))
    }

    /// Raw data that shares `bytes` with whoever else holds them.
    pub open spec fn spec_new_shared(bytes: Arc<Vec<u8>>) -> ImageData {
        ImageData::Raw(bytes)
    }

    /// Whether this is a command stream.
    pub open spec fn spec_is_blob(&self) -> bool {
        self is Blob
    }

    /// Whether the pixels of this image are copied into the texture cache:
    /// always, unless the image is a texture that already lives on the GPU.
    pub open spec fn spec_uses_texture_cache(&self) -> bool {
        !(self matches ImageData::External(external) && external.image_type.is_texture_handle())
    }

    /// Takes ownership of a fresh buffer of pixels.
    #[verifier::when_used_as_spec(spec_new)]
    pub fn new(bytes: Vec<u8>) -> (data: ImageData)
        ensures
            data == ImageData::spec_new(bytes),
            data@ == ImageDataView::Raw(bytes@),
    {
        ImageData::Raw(Arc::new(bytes))
    }

    /// Adopts a buffer of pixels that another owner already shares, without
    /// copying it.
    #[verifier::when_used_as_spec(spec_new_shared)]
    pub fn new_shared(bytes: Arc<Vec<u8>>) -> (data: ImageData)
        ensures
            data == ImageData::Raw(bytes),
            data@ == ImageDataView::Raw(bytes@),
    {
        ImageData::Raw(bytes)
    }

    pub fn new_blob_image(commands: Vec<u8>) -> (data: ImageData)
        ensures
            data == ImageData::Blob(commands),
            data@ == ImageDataView::Blob(commands@),
    {
        ImageData::Blob(commands)
    }

    #[verifier::when_used_as_spec(spec_is_blob)]
    pub fn is_blob(&self) -> (blob: bool)
        ensures
            blob == (self is Blob),
            blob == (self@ is Blob),
    {
        match self {
            ImageData::Blob(_) => true,
            _ => false,
        }
    }

    #[verifier::when_used_as_spec(spec_uses_texture_cache)]
    pub fn uses_texture_cache(&self) -> (cached: bool)
        ensures
            cached == self.spec_uses_texture_cache(),
            self is Raw ==> cached,
            self is Blob ==> cached,
            self matches ImageData::External(external) ==> cached == (external.image_type
                == ExternalImageType::ExternalBuffer),
    {
        match self {
            ImageData::External(external) => match external.image_type {
                ExternalImageType::Texture2DHandle => false,
                ExternalImageType::Texture2DArrayHandle => false,
                ExternalImageType::TextureRectHandle => false,
                ExternalImageType::TextureExternalHandle => false,
                ExternalImageType::ExternalBuffer => true,
            },
            ImageData::Blob(_) => true,
            ImageData::Raw(_) => true,
        }
    }
}

/// The five kinds of external image fall into two classes with nothing left
/// over: a kind is a texture handle exactly when it is not a host buffer.
pub proof fn lemma_external_kinds_are_classified(image_type: ExternalImageType)
    ensures
        image_type.is_texture_handle() <==> image_type != ExternalImageType::ExternalBuffer,
{
}

/// An image stays out of the texture cache exactly when it is an external
/// image of one of the four texture-handle kinds. Raw data, command streams
/// and external host buffers all go through the cache.
pub proof fn lemma_texture_cache_rule(data: ImageData)
    ensures
        !data.uses_texture_cache() <==> (data matches ImageData::External(external) && (
        external.image_type == ExternalImageType::Texture2DHandle || external.image_type
            == ExternalImageType::Texture2DArrayHandle || external.image_type
            == ExternalImageType::TextureRectHandle || external.image_type
            == ExternalImageType::TextureExternalHandle)),
        data matches ImageData::External(external) && external.image_type
            == ExternalImageType::ExternalBuffer ==> data.uses_texture_cache(),
{
}

/// Raw data reads back as the bytes it was made from, whichever constructor
/// made it, and the two constructors agree: given buffers with the same
/// bytes they make values with the same content.
pub proof fn lemma_raw_data_round_trip(bytes: Vec<u8>, shared: Arc<Vec<u8>>)
    ensures
        ImageData::new(bytes)@ == ImageDataView::Raw(bytes@),
        ImageData::new_shared(shared)@ == ImageDataView::Raw(shared@),
        ImageData::new(bytes) is Raw && ImageData::new_shared(shared) is Raw,
        shared@ == bytes@ ==> ImageData::new(bytes)@ == ImageData::new_shared(shared)@,
{
}

} // verus!
