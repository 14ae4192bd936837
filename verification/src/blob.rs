//! Blob images: images whose pixels are rasterized on demand from a recorded
//! command stream, as a whole or tile by tile.
//!
//! The host supplies a rasterizer by implementing [`BlobImageRenderer`]. The
//! renderer registers command streams with it, asks for tiles with `request`
//! and collects each result with `resolve`. What the two sides may expect of
//! each other is written down over a [`BlobLedger`]: the registered images,
//! the requests that await their `resolve`, and the tiles already handed out.

use crate::data::ImageData;
use crate::font::{FontInstanceKey, FontKey, FontTemplate};
use crate::format::{ImageDescriptor, ImageFormat};
use crate::identity::ImageKey;
use crate::units::{DeviceUintRect, TileOffset, TileSize};
use vstd::prelude::*;

verus! {

/// A recorded command stream.
pub type BlobImageData = Vec<u8>;

/// What `resolve` hands back for one request.
pub type BlobImageResult = Result<RasterizedBlobImage, BlobImageError>;

/// The pixel area that one request asks for.
///
/// `offset` places the area in device space. It is in the point type of the
/// host, and nothing here reads it.
#[derive(Clone, Copy, Debug)]
pub struct BlobImageDescriptor<P> {
    pub width: u32,
    pub height: u32,
    pub offset: P,
    pub format: ImageFormat,
}

/// The pixels of one rasterized image or tile.
pub struct RasterizedBlobImage {
    pub width: u32,
    pub height: u32,
    pub data: Vec<u8>,
}

impl RasterizedBlobImage {
    /// Whether this result is what `descriptor` asked for: the same extent,
    /// and as many bytes as that many tightly packed pixels of its format
    /// take.
    pub open spec fn matches_descriptor<P>(&self, descriptor: BlobImageDescriptor<P>) -> bool {
        &&& self.width == descriptor.width
        &&& self.height == descriptor.height
        &&& self.data@.len() == descriptor.width * descriptor.height
            * descriptor.format.bytes_per_pixel()
    }
}

/// Why a request gave no pixels.
#[derive(Clone, Debug)]
pub enum BlobImageError {
    /// No target buffer could be allocated. The request may be tried again.
    Oom,
    /// The key is not registered: it never was, or it was deleted.
    InvalidKey,
    /// The command stream of the image is malformed. It stays so until the
    /// image is updated.
    InvalidData,
    /// Any other failure, with a message for diagnosis.
    Other(String),
}

/// One unit of rasterization work: an image, and the tile of it that is
/// wanted. Without a tile the whole image is meant, untiled.
#[derive(Clone, Copy, Debug, PartialEq, Eq, Hash, Structural)]
pub struct BlobImageRequest {
    pub key: ImageKey,
    pub tile: Option<TileOffset>,
}

/// A registered blob image: its current command stream and the tile size it
/// was added with.
pub struct BlobImage {
    pub commands: Seq<u8>,
    pub tiling: Option<TileSize>,
}

/// A request that was issued and awaits its `resolve`.
pub struct IssuedRequest<P> {
    /// The pixel area that was asked for.
    pub descriptor: BlobImageDescriptor<P>,
    /// Whether the image was registered when the request was issued and has
    /// not been deleted since.
    pub live: bool,
}

/// Where one request stands.
pub enum BlobPhase {
    /// The image is not registered and nothing was asked of it.
    Unregistered,
    /// The image is registered; this tile was not asked for since.
    Registered,
    /// The tile was asked for and its result not yet collected.
    Requested,
    /// The result of the latest request for this tile was collected.
    Resolved,
}

/// The state of the protocol between a renderer and a rasterizer.
#[verifier::ext_equal]
#[verifier::reject_recursive_types(P)]
pub struct BlobLedger<P> {
    /// The registered images.
    pub images: Map<ImageKey, BlobImage>,
    /// The requests that await their `resolve`.
    pub issued: Map<BlobImageRequest, IssuedRequest<P>>,
    /// The requests whose result was collected, of images still registered.
    pub resolved: Set<BlobImageRequest>,
    /// The command streams that this rasterizer cannot make sense of. No
    /// call changes it.
    pub malformed: Set<Seq<u8>>,
    /// How this rasterizer draws: whether the given pixels are a
    /// rasterization of the given command stream for the given request at
    /// the given descriptor. No call changes it.
    pub draws: spec_fn(Seq<u8>, BlobImageRequest, BlobImageDescriptor<P>, Seq<u8>) -> bool,
}

impl<P> BlobLedger<P> {
    /// The ledger of a rasterizer that nothing was asked of yet and of whose
    /// drawing nothing is said: no command stream counts as malformed, and
    /// any pixels count as a rasterization.
    pub open spec fn empty() -> Self {
        BlobLedger {
            images: Map::empty(),
            issued: Map::empty(),
            resolved: Set::empty(),
            malformed: Set::empty(),
            draws: |
                commands: Seq<u8>,
                request: BlobImageRequest,
                descriptor: BlobImageDescriptor<P>,
                pixels: Seq<u8>,
            | true,
        }
    }

    /// Whether the command stream that `key` has now is malformed.
    pub open spec fn is_broken(self, key: ImageKey) -> bool {
        self.is_registered(key) && self.malformed.contains(self.images[key].commands)
    }

    /// Whether `key` names a registered image.
    pub open spec fn is_registered(self, key: ImageKey) -> bool {
        self.images.contains_key(key)
    }

    /// Whether `request` awaits its `resolve`.
    pub open spec fn is_outstanding(self, request: BlobImageRequest) -> bool {
        self.issued.contains_key(request)
    }

    /// Whether `request` awaits its `resolve` and can still be answered with
    /// pixels: its image was registered when it was issued and still is.
    pub open spec fn is_answerable(self, request: BlobImageRequest) -> bool {
        self.issued.contains_key(request) && self.issued[request].live && self.is_registered(
            request.key,
        )
    }

    /// Where `request` stands. A request that awaits its `resolve` is
    /// `Requested` whatever has become of its image.
    pub open spec fn phase(self, request: BlobImageRequest) -> BlobPhase {
        if self.issued.contains_key(request) {
            BlobPhase::Requested
        } else if !self.is_registered(request.key) {
            BlobPhase::Unregistered
        } else if self.resolved.contains(request) {
            BlobPhase::Resolved
        } else {
            BlobPhase::Registered
        }
    }

    /// The ledger after `key` was registered with `commands`. No tile of the
    /// new image counts as resolved.
    pub open spec fn add(self, key: ImageKey, commands: Seq<u8>, tiling: Option<TileSize>) -> Self {
        BlobLedger {
            images: self.images.insert(key, BlobImage { commands, tiling }),
            issued: self.issued,
            resolved: Set::new(
                |request: BlobImageRequest| self.resolved.contains(request) && request.key != key,
            ),
            malformed: self.malformed,
            draws: self.draws,
        }
    }

    /// The ledger after the command stream of `key` was replaced. The tile
    /// size stays as it was.
    pub open spec fn update(self, key: ImageKey, commands: Seq<u8>) -> Self {
        BlobLedger {
            images: self.images.insert(
                key,
                BlobImage { commands, tiling: self.images[key].tiling },
            ),
            ..self
        }
    }

    /// The ledger after `key` was unregistered. The requests for it that are
    /// outstanding stay so, but none of them can be answered with pixels any
    /// more.
    pub open spec fn delete(self, key: ImageKey) -> Self {
        BlobLedger {
            images: self.images.remove(key),
            issued: Map::new(
                |request: BlobImageRequest| self.issued.contains_key(request),
                |request: BlobImageRequest|
                    if request.key == key {
                        IssuedRequest { descriptor: self.issued[request].descriptor, live: false }
                    } else {
                        self.issued[request]
                    },
            ),
            resolved: Set::new(
                |request: BlobImageRequest| self.resolved.contains(request) && request.key != key,
            ),
            malformed: self.malformed,
            draws: self.draws,
        }
    }

    /// The ledger after `request` was issued at `descriptor`. An earlier
    /// request for the same tile is superseded.
    pub open spec fn request(
        self,
        request: BlobImageRequest,
        descriptor: BlobImageDescriptor<P>,
    ) -> Self {
        BlobLedger {
            images: self.images,
            issued: self.issued.insert(
                request,
                IssuedRequest { descriptor, live: self.is_registered(request.key) },
            ),
            resolved: self.resolved.remove(request),
            malformed: self.malformed,
            draws: self.draws,
        }
    }

    /// The ledger after the result of `request` was collected. The tile
    /// counts as resolved if the request could be answered.
    pub open spec fn resolve(self, request: BlobImageRequest) -> Self {
        BlobLedger {
            images: self.images,
            issued: self.issued.remove(request),
            resolved: if self.is_answerable(request) {
                self.resolved.insert(request)
            } else {
                self.resolved
            },
            malformed: self.malformed,
            draws: self.draws,
        }
    }

    /// Whether `result` may be handed out for `request`.
    ///
    /// A request that cannot be answered gets `InvalidKey`, and no other
    /// gets it. Pixels are what the descriptor of the request asked for;
    /// they are drawn from the command stream that the image has now, and
    /// there are none for a malformed one. `InvalidData` is given only for a
    /// malformed command stream.
    pub open spec fn admits(self, request: BlobImageRequest, result: BlobImageResult) -> bool {
        &&& (result matches Err(BlobImageError::InvalidKey)) <==> !self.is_answerable(request)
        &&& result matches Ok(image) ==> {
            &&& image.matches_descriptor(self.issued[request].descriptor)
            &&& !self.is_broken(request.key)
            &&& (self.draws)(
                self.images[request.key].commands,
                request,
                self.issued[request].descriptor,
                image.data@,
            )
        }
        &&& result matches Err(BlobImageError::InvalidData) ==> self.is_broken(request.key)
    }
}

/// Read-only access to the fonts and images that the commands of a blob image
/// may refer to.
pub trait BlobImageResources {
    /// The fonts that can be looked up.
    ///
    /// The default suits only an implementation that is not verified. A
    /// verified one states here what it really holds.
    open spec fn fonts(&self) -> Map<FontKey, FontTemplate> {
        Map::empty()
    }

    /// The images that can be looked up, each with its descriptor.
    ///
    /// The default suits only an implementation that is not verified.
    open spec fn images(&self) -> Map<ImageKey, (ImageData, ImageDescriptor)> {
        Map::empty()
    }

    /// The template of the font `key`, where there is such a font.
    fn get_font_data(&self, key: FontKey) -> (font: &FontTemplate)
        ensures
            self.fonts().contains_key(key) ==> *font == self.fonts()[key],
    ;

    /// The image `key` with its descriptor, or `None` where there is no such
    /// image.
    fn get_image(&self, key: ImageKey) -> (image: Option<(&ImageData, &ImageDescriptor)>)
        ensures
            image is Some <==> self.images().contains_key(key),
            image matches Some((data, descriptor)) ==> self.images()[key] == (*data, *descriptor),
    ;
}

/// A rasterizer of blob images, supplied by the host.
pub trait BlobImageRenderer: Send {
    /// The point type in which requests place their pixel area.
    type Offset;

    /// The state of the protocol, as this rasterizer keeps it.
    ///
    /// The default suits only an implementation that is not verified. A
    /// verified one states here what it really tracks.
    open spec fn ledger(&self) -> BlobLedger<Self::Offset> {
        BlobLedger::empty()
    }

    /// Registers a new blob image. `tiling` fixes the tile size of later
    /// tiled requests. The key must not be registered already.
    fn add(&mut self, key: ImageKey, data: BlobImageData, tiling: Option<TileSize>)
        requires
            !old(self).ledger().is_registered(key),
        ensures
            final(self).ledger() == old(self).ledger().add(key, data@, tiling),
    ;

    /// Replaces the command stream of a registered image. Without a
    /// `dirty_rect` the whole image counts as changed; with one, only the
    /// tiles that meet it need to be rasterized anew.
    fn update(&mut self, key: ImageKey, data: BlobImageData, dirty_rect: Option<DeviceUintRect>)
        requires
            old(self).ledger().is_registered(key),
        ensures
            final(self).ledger() == old(self).ledger().update(key, data@),
    ;

    /// Unregisters an image. Requests for it may be outstanding; each of
    /// them resolves to `InvalidKey`.
    fn delete(&mut self, key: ImageKey)
        requires
            old(self).ledger().is_registered(key),
        ensures
            final(self).ledger() == old(self).ledger().delete(key),
    ;

    /// Enqueues the rasterization of one tile and returns without waiting
    /// for it. `services` gives read-only access to the fonts and images that
    /// the commands refer to.
    fn request(
        &mut self,
        services: &dyn BlobImageResources,
        key: BlobImageRequest,
        descriptor: &BlobImageDescriptor<Self::Offset>,
        dirty_rect: Option<DeviceUintRect>,
    )
        ensures
            final(self).ledger() == old(self).ledger().request(key, *descriptor),
    ;

    /// Collects the result of an outstanding request, waiting for it if need
    /// be. Pixels come from the command stream that the image has now, never
    /// from one that an update has replaced.
    fn resolve(&mut self, key: BlobImageRequest) -> (result: BlobImageResult)
        requires
            old(self).ledger().is_outstanding(key),
        ensures
            final(self).ledger() == old(self).ledger().resolve(key),
            old(self).ledger().admits(key, result),
    ;

    /// Tells the rasterizer that a font is retired, so that it drops what it
    /// has cached of it. Images and requests stay as they are.
    fn delete_font(&mut self, key: FontKey)
        ensures
            final(self).ledger() == old(self).ledger(),
    ;

    /// Tells the rasterizer that a font instance is retired. Images and
    /// requests stay as they are.
    fn delete_font_instance(&mut self, key: FontInstanceKey)
        ensures
            final(self).ledger() == old(self).ledger(),
    ;
}

/// A request for an image that is deleted while the request is outstanding
/// stays outstanding, and the only result that may be handed out for it is
/// `InvalidKey`: never pixels. This holds even if the key is registered anew
/// before the request is resolved.
pub proof fn lemma_deleted_key_resolves_to_invalid_key<P>(
    ledger: BlobLedger<P>,
    request: BlobImageRequest,
    result: BlobImageResult,
    commands: Seq<u8>,
    tiling: Option<TileSize>,
)
    requires
        ledger.is_outstanding(request),
    ensures
        ledger.delete(request.key).is_outstanding(request),
        !ledger.delete(request.key).is_answerable(request),
        ledger.delete(request.key).admits(request, result) ==> result matches Err(
            BlobImageError::InvalidKey,
        ),
        ledger.delete(request.key).add(request.key, commands, tiling).admits(request, result)
            ==> result matches Err(BlobImageError::InvalidKey),
{
}

/// Deleting an image touches no other image and no request for another
/// image.
pub proof fn lemma_delete_leaves_other_keys<P>(
    ledger: BlobLedger<P>,
    key: ImageKey,
    other: BlobImageRequest,
)
    requires
        other.key != key,
    ensures
        !ledger.delete(key).is_registered(key),
        ledger.delete(key).is_registered(other.key) == ledger.is_registered(other.key),
        ledger.delete(key).is_registered(other.key) ==> ledger.delete(key).images[other.key]
            == ledger.images[other.key],
        ledger.delete(key).is_outstanding(other) == ledger.is_outstanding(other),
        ledger.delete(key).is_answerable(other) == ledger.is_answerable(other),
        ledger.delete(key).phase(other) == ledger.phase(other),
{
}

/// A request for a registered image can be answered, and pixels handed out
/// for it have the extent that the request named. The request leaves the
/// registered images as they are.
pub proof fn lemma_request_is_answered_at_its_descriptor<P>(
    ledger: BlobLedger<P>,
    request: BlobImageRequest,
    descriptor: BlobImageDescriptor<P>,
    image: RasterizedBlobImage,
)
    requires
        ledger.is_registered(request.key),
    ensures
        ledger.request(request, descriptor).is_answerable(request),
        ledger.request(request, descriptor).images == ledger.images,
        ledger.request(request, descriptor).admits(request, Ok(image)) <==> (image.width
            == descriptor.width && image.height == descriptor.height && image.data@.len()
            == descriptor.width * descriptor.height * descriptor.format.bytes_per_pixel()
            && !ledger.is_broken(request.key) && (ledger.draws)(
            ledger.images[request.key].commands,
            request,
            descriptor,
            image.data@,
        )),
        !ledger.request(request, descriptor).admits(request, Err(BlobImageError::InvalidKey)),
{
}

/// A request for an image that is not registered is outstanding all the
/// same, and the only result that may be handed out for it is `InvalidKey`.
pub proof fn lemma_request_for_unknown_key<P>(
    ledger: BlobLedger<P>,
    request: BlobImageRequest,
    descriptor: BlobImageDescriptor<P>,
    result: BlobImageResult,
)
    requires
        !ledger.is_registered(request.key),
    ensures
        ledger.request(request, descriptor).is_outstanding(request),
        ledger.request(request, descriptor).admits(request, result) ==> result matches Err(
            BlobImageError::InvalidKey,
        ),
{
}

/// After an update, the command stream of the image is the new one, for
/// every request issued before or after it: pixels handed out from then on
/// are drawn from the new commands and from no earlier ones. The tile size,
/// the other images and all requests stay as they were.
pub proof fn lemma_update_supersedes<P>(
    ledger: BlobLedger<P>,
    key: ImageKey,
    commands: Seq<u8>,
    request: BlobImageRequest,
    descriptor: BlobImageDescriptor<P>,
    image: RasterizedBlobImage,
)
    requires
        ledger.is_registered(key),
    ensures
        request.key == key && ledger.update(key, commands).admits(request, Ok(image)) ==> (
        ledger.draws)(commands, request, ledger.issued[request].descriptor, image.data@),
        request.key == key && ledger.update(key, commands).request(request, descriptor).admits(
            request,
            Ok(image),
        ) ==> (ledger.draws)(commands, request, descriptor, image.data@),
        ledger.update(key, commands).is_registered(key),
        ledger.update(key, commands).images[key].commands == commands,
        ledger.update(key, commands).images[key].tiling == ledger.images[key].tiling,
        ledger.update(key, commands).request(request, descriptor).images[key].commands
            == commands,
        ledger.update(key, commands).issued == ledger.issued,
        ledger.update(key, commands).phase(request) == ledger.phase(request),
        request.key != key && ledger.is_registered(request.key) ==> ledger.update(
            key,
            commands,
        ).images[request.key] == ledger.images[request.key],
{
}

/// The path of one tile through the protocol: registering its image makes it
/// `Registered`, a request makes it `Requested`, collecting the result makes
/// it `Resolved`, a further request makes it `Requested` again, and deleting
/// the image once nothing is outstanding makes it `Unregistered`.
pub proof fn lemma_phases_follow_the_calls<P>(
    ledger: BlobLedger<P>,
    request: BlobImageRequest,
    commands: Seq<u8>,
    tiling: Option<TileSize>,
    descriptor: BlobImageDescriptor<P>,
)
    requires
        ledger.phase(request) == BlobPhase::Unregistered,
    ensures
        ({
            let added = ledger.add(request.key, commands, tiling);
            let requested = added.request(request, descriptor);
            let resolved = requested.resolve(request);
            let again = resolved.request(request, descriptor);
            let deleted = resolved.delete(request.key);
            &&& added.phase(request) == BlobPhase::Registered
            &&& requested.phase(request) == BlobPhase::Requested
            &&& resolved.phase(request) == BlobPhase::Resolved
            &&& again.phase(request) == BlobPhase::Requested
            &&& deleted.phase(request) == BlobPhase::Unregistered
        }),
{
}

/// A result can be collected in the `Requested` phase and in no other, so not
/// twice without a request in between.
pub proof fn lemma_resolve_consumes_the_request<P>(ledger: BlobLedger<P>, request: BlobImageRequest)
    ensures
        ledger.is_outstanding(request) <==> ledger.phase(request) == BlobPhase::Requested,
        !ledger.resolve(request).is_outstanding(request),
        ledger.resolve(request).phase(request) != BlobPhase::Requested,
{
}

/// Requests for different tiles do not interfere: they may be issued in
/// either order and resolved in either order, and what may be handed out for
/// one does not depend on whether the other was issued or resolved before.
pub proof fn lemma_distinct_requests_are_independent<P>(
    ledger: BlobLedger<P>,
    first: BlobImageRequest,
    first_descriptor: BlobImageDescriptor<P>,
    second: BlobImageRequest,
    second_descriptor: BlobImageDescriptor<P>,
    result: BlobImageResult,
)
    requires
        first != second,
    ensures
        ledger.request(first, first_descriptor).request(second, second_descriptor)
            == ledger.request(second, second_descriptor).request(first, first_descriptor),
        ledger.resolve(first).resolve(second) == ledger.resolve(second).resolve(first),
        ledger.resolve(first).admits(second, result) == ledger.admits(second, result),
        ledger.request(first, first_descriptor).admits(second, result) == ledger.admits(
            second,
            result,
        ),
{
    let a = ledger.request(first, first_descriptor).request(second, second_descriptor);
    let b = ledger.request(second, second_descriptor).request(first, first_descriptor);
    assert(a.issued =~= b.issued);
    assert(a.resolved =~= b.resolved);
    let c = ledger.resolve(first).resolve(second);
    let d = ledger.resolve(second).resolve(first);
    assert(c.issued =~= d.issued);
    assert(c.resolved =~= d.resolved);
}

/// A malformed image stays broken until it is updated. While the command
/// stream of a registered image is malformed, no request for any tile of it
/// is answered with pixels, however often it is asked again; and of all the
/// calls only an update of that image, or its deletion, changes its command
/// stream.
pub proof fn lemma_malformed_image_stays_broken<P>(
    ledger: BlobLedger<P>,
    key: ImageKey,
    request: BlobImageRequest,
    descriptor: BlobImageDescriptor<P>,
    image: RasterizedBlobImage,
    other: ImageKey,
    commands: Seq<u8>,
    tiling: Option<TileSize>,
)
    requires
        ledger.is_broken(key),
        other != key,
    ensures
        request.key == key ==> !ledger.admits(request, Ok(image)),
        ledger.request(request, descriptor).is_broken(key),
        ledger.resolve(request).is_broken(key),
        ledger.add(other, commands, tiling).is_broken(key),
        ledger.update(other, commands).is_broken(key),
        ledger.delete(other).is_broken(key),
        ledger.update(key, commands).is_broken(key) <==> ledger.malformed.contains(commands),
{
}

} // verus!
