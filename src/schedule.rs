//! When boxes must be recomputed: change sources mark a tracker during a cycle, and the
//! applier runs at most once per cycle, only when something was marked.
use vstd::prelude::*;

verus! {

/// An input whose change can make the current boxes wrong.
#[derive(Clone, Copy, Debug, PartialEq, Eq, Structural)]
pub enum ChangeSource {
    /// A window was resized or otherwise changed.
    Window,
    /// A camera's boxing policy was added or replaced.
    CameraBox,
    /// The manually managed texture views changed.
    TextureViews,
    /// An image asset changed or was removed.
    Images,
}

/// One "dirty" flag per change source, gathered during a cycle.
#[derive(Clone, Copy, Debug, PartialEq, Eq, Structural)]
pub struct ChangeTracker {
    pub windows: bool,
    pub camera_boxes: bool,
    pub texture_views: bool,
    pub images: bool,
}

impl ChangeTracker {
    /// Nothing has changed.
    pub open spec fn idle() -> ChangeTracker {
        ChangeTracker { windows: false, camera_boxes: false, texture_views: false, images: false }
    }

    /// Some source changed: boxes must be recomputed.
    pub open spec fn is_signaled(self) -> bool {
        self.windows || self.camera_boxes || self.texture_views || self.images
    }

    /// The tracker after `source` reported a change.
    pub open spec fn with_change(self, source: ChangeSource) -> ChangeTracker {
        match source {
            ChangeSource::Window => ChangeTracker { windows: true, ..self },
            ChangeSource::CameraBox => ChangeTracker { camera_boxes: true, ..self },
            ChangeSource::TextureViews => ChangeTracker { texture_views: true, ..self },
            ChangeSource::Images => ChangeTracker { images: true, ..self },
        }
    }

    pub fn new() -> (r: ChangeTracker)
        ensures
            r == ChangeTracker::idle(),
    {
        ChangeTracker { windows: false, camera_boxes: false, texture_views: false, images: false }
    }

    /// Records that `source` changed during this cycle.
    pub fn mark_changed(&mut self, source: ChangeSource)
        ensures
            *final(self) == old(self).with_change(source),
    {
        match source {
            ChangeSource::Window => self.windows = true,
            ChangeSource::CameraBox => self.camera_boxes = true,
            ChangeSource::TextureViews => self.texture_views = true,
            ChangeSource::Images => self.images = true,
        }
    }

    /// Ends the cycle's change detection: whether the applier must run, which it must when
    /// some source changed and some camera is boxed. The tracker is idle afterwards.
    pub fn take_signal(&mut self, any_boxed_cameras: bool) -> (run: bool)
        ensures
            run == (any_boxed_cameras && old(self).is_signaled()),
            *final(self) == ChangeTracker::idle(),
    {
        let run = any_boxed_cameras && (self.windows || self.camera_boxes || self.texture_views
            || self.images);
        *self = ChangeTracker::new();
        run
    }
}

/// The tracker after each source in `fired` reported a change, in order.
pub open spec fn with_changes(t: ChangeTracker, fired: Seq<ChangeSource>) -> ChangeTracker
    decreases fired.len(),
{
    if fired.len() == 0 {
        t
    } else {
        with_changes(t, fired.drop_last()).with_change(fired.last())
    }
}

/// One cycle: the sources in `fired` report their changes, then the signal is taken. The
/// result is the tracker for the next cycle and whether the applier runs in this one.
pub open spec fn cycle_outcome(
    t: ChangeTracker,
    fired: Seq<ChangeSource>,
    any_boxed_cameras: bool,
) -> (ChangeTracker, bool) {
    (ChangeTracker::idle(), any_boxed_cameras && with_changes(t, fired).is_signaled())
}

/// However many change sources fire within one cycle, that cycle raises one signal: the
/// applier runs exactly once, as it would for a single source, and the next cycle starts
/// idle. A cycle in which no source fires does not run the applier.
pub proof fn lemma_coalescing(fired: Seq<ChangeSource>)
    requires
        fired.len() >= 1,
    ensures
        cycle_outcome(ChangeTracker::idle(), fired, true) == (ChangeTracker::idle(), true),
        cycle_outcome(ChangeTracker::idle(), fired, true) == cycle_outcome(
            ChangeTracker::idle(),
            seq![fired.last()],
            true,
        ),
        cycle_outcome(ChangeTracker::idle(), Seq::empty(), true) == (ChangeTracker::idle(), false),
{
    let one = seq![fired.last()];
    assert(one.drop_last() =~= Seq::<ChangeSource>::empty());
}

} // verus!
