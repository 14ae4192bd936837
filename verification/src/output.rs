//! Output images: textures of the host into which the renderer copies what a
//! pipeline has rendered.

use crate::units::{DeviceIntSize, PipelineId};
use vstd::prelude::*;

verus! {

/// The host's side of the hand-off of rendered output.
pub trait OutputImageHandler {
    /// The pipelines whose destination is locked now.
    ///
    /// The default suits only an implementation that is not verified. A
    /// verified one states here what it really tracks.
    open spec fn locked(&self) -> Set<PipelineId> {
        Set::empty()
    }

    /// Asks for the texture that the output of `pipeline_id` is to be copied
    /// into, and for its size. `None` means that the host has none ready: the
    /// copy is skipped for this frame and nothing is locked.
    fn lock(&mut self, pipeline_id: PipelineId) -> (target: Option<(u32, DeviceIntSize)>)
        ensures
            final(self).locked() == locked_after(old(self).locked(), pipeline_id, target),
    ;

    /// Tells the host that the copy commands were issued. Only a pipeline
    /// whose `lock` gave a texture can be unlocked.
    fn unlock(&mut self, pipeline_id: PipelineId)
        requires
            old(self).locked().contains(pipeline_id),
        ensures
            final(self).locked() == old(self).locked().remove(pipeline_id),
    ;
}

/// What a `lock` leaves locked: the pipeline joins the locked ones when a
/// texture was given, and nothing changes when none was.
pub open spec fn locked_after(
    before: Set<PipelineId>,
    pipeline_id: PipelineId,
    target: Option<(u32, DeviceIntSize)>,
) -> Set<PipelineId> {
    if target is Some {
        before.insert(pipeline_id)
    } else {
        before
    }
}

/// A pipeline that was not locked can be unlocked after a `lock` exactly when
/// that `lock` gave a texture: after one that gave none, `unlock` is never
/// allowed.
pub proof fn lemma_unlock_only_after_successful_lock(
    before: Set<PipelineId>,
    pipeline_id: PipelineId,
    target: Option<(u32, DeviceIntSize)>,
)
    requires
        !before.contains(pipeline_id),
    ensures
        locked_after(before, pipeline_id, target).contains(pipeline_id) <==> target is Some,
        target is None ==> locked_after(before, pipeline_id, target) == before,
        target is Some ==> locked_after(before, pipeline_id, target).remove(pipeline_id) == before,
{
}

} // verus!
