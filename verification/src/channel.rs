//! The event channel between the window watcher and the camera engine.
//!
//! The watcher runs on its own thread and pushes [`ServerMessage`]s into an
//! unbounded crossbeam channel; the render thread drains every message that
//! is already queued — never blocking — once per frame and feeds each
//! snapshot to the retarget decision before advancing the animation. The
//! owner signals shutdown to the watcher with a [`FilterMessage`] on a
//! second channel flowing the other way.

use vstd::prelude::*;
use crate::camera::{
    CameraState, CameraModel, WindowSnapshot, SnapshotModel, spec_handle, spec_advance,
};

verus! {

/// Messages flowing from the window watcher to the engine.
#[derive(Clone, Copy, PartialEq, Eq, Structural, Debug)]
pub enum ServerMessage {
    /// A reported focused-window geometry change.
    Snapshot(WindowSnapshot),
}

/// Messages flowing from the engine's owner back to the watcher.
#[derive(Clone, Copy, PartialEq, Eq, Structural, Debug)]
pub enum FilterMessage {
    /// Ask the watcher thread to stop and release its resources.
    CloseConnection,
}

#[verifier::external_type_specification]
#[verifier::external_body]
#[verifier::reject_recursive_types(T)]
pub struct ExReceiver<T>(crossbeam_channel::Receiver<T>);

/// Relies on `crossbeam_channel::Receiver::try_iter` (and its iterator's
/// `next`, which calls `try_recv`): yields the messages already queued on
/// the channel, in arrival order, without ever blocking, and never panics.
/// Which and how many messages are queued depends on the sending thread,
/// so nothing can be promised of the returned sequence.
#[verifier::external_body]
fn drain_messages(receive: &crossbeam_channel::Receiver<ServerMessage>) -> Vec<ServerMessage> {
    receive.try_iter().collect()
}

/// The retarget decision folded over a sequence of snapshots, in arrival
/// order.
pub open spec fn spec_handle_seq(st: CameraModel, snaps: Seq<SnapshotModel>) -> CameraModel
    decreases snaps.len(),
{
    if snaps.len() == 0 {
        st
    } else {
        spec_handle(spec_handle_seq(st, snaps.drop_last()), snaps.last())
    }
}

impl CameraState {
    /// One rendered frame: drain all currently queued snapshots, run the
    /// retarget decision on each in arrival order, then advance the
    /// animation by `dt` microseconds. The sequence of drained snapshots
    /// depends on the watcher thread, so the contract promises that the
    /// new state is the fold of the per-snapshot decision over some
    /// snapshot sequence, followed by one animation step.
    pub fn video_tick(
        &mut self,
        receive: &crossbeam_channel::Receiver<ServerMessage>,
        dt: u64,
    )
        requires
            old(self).wf(),
        ensures
            final(self).wf(),
            exists|snaps: Seq<SnapshotModel>|
                final(self)@ == spec_advance(
                    #[trigger] spec_handle_seq(old(self)@, snaps),
                    dt as int,
                ),
    {
        let messages = drain_messages(receive);
        let ghost mut snaps: Seq<SnapshotModel> = Seq::empty();
        let mut i: usize = 0;
        while i < messages.len()
            invariant
                i <= messages.len(),
                self.wf(),
                self@ == spec_handle_seq(old(self)@, snaps),
            decreases messages.len() - i,
        {
            match &messages[i] {
                ServerMessage::Snapshot(snap) => {
                    let ghost before = snaps;
                    self.handle_snapshot(snap);
                    proof {
                        snaps = snaps.push(snap@);
                        assert(snaps.drop_last() =~= before);
                    }
                }
            }
            i = i + 1;
        }
        self.advance(dt);
        assert(self@ == spec_advance(spec_handle_seq(old(self)@, snaps), dt as int));
    }
}

} // verus!
