//! External images: buffers and textures that the host owns and lends to the
//! renderer between a `lock` and the `unlock` that matches it.

use crate::identity::ExternalImageId;
use vstd::prelude::*;

verus! {

/// What a lock gives access to.
pub enum ExternalImageSource<'a> {
    /// The bytes of a buffer in host memory.
    RawData(&'a [u8]),
    /// The handle of a texture of the graphics backend.
    NativeTexture(u32),
    /// Nothing: the lock failed. The image counts as absent for this frame.
    Invalid,
}

/// What the host provides when an external image is locked.
///
/// The bounds `u0`, `v0`, `u1`, `v1` are in texels, not scaled to the unit
/// square. They are in the scalar type of the host, and nothing here reads
/// them.
pub struct ExternalImage<'a, T> {
    pub u0: T,
    pub v0: T,
    pub u1: T,
    pub v1: T,
    pub source: ExternalImageSource<'a>,
}

/// The host's side of the hand-off of external images.
///
/// Between `lock` and the matching `unlock` the renderer may read the image
/// and the host leaves its content alone. The view that `lock` returns
/// borrows the handler, so it cannot outlive the `unlock`. When the host may
/// free an image altogether is agreed elsewhere.
pub trait ExternalImageHandler {
    /// The scalar type of the bounds that `lock` returns.
    type Coord;

    /// The planes that are locked now, each by the id of its image and its
    /// channel index.
    ///
    /// The default suits only an implementation that is not verified. A
    /// verified one states here what it really tracks.
    open spec fn locked(&self) -> Set<(ExternalImageId, u8)> {
        Set::empty()
    }

    /// The bytes of a plane that lives in host memory, as the host holds them
    /// now. For a plane that is a texture this says nothing.
    ///
    /// The default suits only an implementation that is not verified.
    open spec fn content(&self, key: ExternalImageId, channel_index: u8) -> Seq<u8> {
        Seq::empty()
    }

    /// Locks one plane of an external image for reading. The plane counts as
    /// locked whatever the source of the returned view is. Bytes that the
    /// view gives are the content of the plane, and the content of every
    /// plane that was locked before stays as it was.
    fn lock(&mut self, key: ExternalImageId, channel_index: u8) -> (image: ExternalImage<
        '_,
        Self::Coord,
    >)
        ensures
            final(self).locked() == old(self).locked().insert((key, channel_index)),
            image.source matches ExternalImageSource::RawData(bytes) ==> bytes@
                == final(self).content(key, channel_index),
            forall|other: ExternalImageId, channel: u8|
                old(self).locked().contains((other, channel)) ==> #[trigger] final(self).content(
                    other,
                    channel,
                ) == old(self).content(other, channel),
    ;

    /// Ends the access that a `lock` of the same plane began. The content of
    /// the planes that stay locked stays as it was.
    fn unlock(&mut self, key: ExternalImageId, channel_index: u8)
        requires
            old(self).locked().contains((key, channel_index)),
        ensures
            final(self).locked() == old(self).locked().remove((key, channel_index)),
            forall|other: ExternalImageId, channel: u8|
                final(self).locked().contains((other, channel)) ==> #[trigger] final(self).content(
                    other,
                    channel,
                ) == old(self).content(other, channel),
    ;
}

/// Locking a plane that was not locked and unlocking it again leaves the set
/// of locked planes as it was, and no other plane is touched on the way.
pub proof fn lemma_lock_unlock_restores(
    locked: Set<(ExternalImageId, u8)>,
    key: ExternalImageId,
    channel_index: u8,
)
    requires
        !locked.contains((key, channel_index)),
    ensures
        locked.insert((key, channel_index)).contains((key, channel_index)),
        locked.insert((key, channel_index)).remove((key, channel_index)) == locked,
        forall|other: (ExternalImageId, u8)|
            other != (key, channel_index) ==> (locked.insert((key, channel_index)).contains(other)
                <==> locked.contains(other)),
{
}

} // verus!
