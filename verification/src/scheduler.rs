//! The frame scheduler's vocabulary: platform outcomes, events, the
//! host-application hooks, and the report a scripted run produces.
//!
//! The engine core never talks to the platform itself.  The embedding
//! program performs each platform operation (acquire an image, submit
//! and present, poll events) and hands its outcome to the scheduler
//! methods on [`crate::context::GraphicsContext`] as one of the plain
//! values below.

use vstd::prelude::*;

use crate::context::GraphicsContext;
use crate::error::PumiceError;
use crate::error::PumiceResult;

verus! {

/// Outcome of asking the presentation chain for its next image.
#[derive(Clone, Copy, Debug, PartialEq, Eq, Structural)]
pub enum AcquireOutcome {
    /// An image is available; its index in the chain is given.
    Ready(usize),
    /// The chain no longer matches the surface and must be rebuilt
    /// before an image can be acquired.
    OutOfDate,
}

/// Outcome of submitting a frame's command buffer and requesting
/// presentation.
#[derive(Clone, Copy, Debug, PartialEq, Eq, Structural)]
pub enum FlushOutcome {
    /// The submission was accepted; its completion signal becomes the
    /// previous-frame future of the next iteration.
    Completed,
    /// Presentation reported the chain out of date; rebuild on the
    /// next iteration instead of failing.
    OutOfDate,
    /// Any other submission error: the frame is dropped, the frame
    /// future is reset to an already-complete sentinel, and the loop
    /// keeps going.
    Failed,
}

/// A platform event, as the engine models it.  Every event is handed
/// to the host's event hook before the engine interprets it; the
/// engine itself reacts only to the first two variants.
#[derive(Clone, Copy, Debug, PartialEq, Eq, Structural)]
pub enum Event {
    /// The window's close button (or equivalent) was pressed.
    CloseRequested,
    /// The window was resized to the given physical extent.
    Resized(u32, u32),
    /// Any event the engine does not act on itself.
    Other,
}

/// Some event of `events` is a close request.
pub open spec fn has_close(events: Seq<Event>) -> bool {
    exists|i: int| 0 <= i < events.len() && (#[trigger] events[i]) is CloseRequested
}

/// Some event of `events` is a resize.
pub open spec fn has_resize(events: Seq<Event>) -> bool {
    exists|i: int| 0 <= i < events.len() && (#[trigger] events[i]) is Resized
}

/// The host application: the update hook repopulates the geometry
/// buffer each frame, and the event hook observes every platform
/// event.  A failure returned by either hook halts the loop and is
/// propagated to the loop's caller.
pub trait App {
    /// Called once per frame while an image is acquired.  Issue the
    /// shapes to draw this frame synchronously during this call; do
    /// not retain the context reference beyond it.  The hook cannot
    /// request a close: as in the windowed loop, closing belongs to
    /// the event dispatcher alone.
    fn on_update(&mut self, ctx: &mut GraphicsContext) -> (r: PumiceResult<()>)
        requires
            old(ctx).wf(),
        ensures
            final(ctx).wf(),
            final(ctx).close_requested == old(ctx).close_requested,
    ;

    /// Called for every platform event, before the engine applies its
    /// own interpretation of the event.
    fn on_event(&mut self, event: &Event) -> (r: PumiceResult<()>);
}

/// The platform's inputs for one loop iteration of a scripted run:
/// what acquire and flush reported, the events that arrived, and the
/// window extent a rebuild would see.
pub struct FrameInputs {
    pub acquire: AcquireOutcome,
    pub flush: FlushOutcome,
    pub events: Vec<Event>,
    pub window_width: u32,
    pub window_height: u32,
}

/// The horizontal screen extent for a window of the given physical
/// size, in Q16.16 units: the aspect ratio `width / height`.
pub open spec fn aspect_of(width: u32, height: u32) -> int {
    (width * 65536) / (height as int)
}

/// The window extents the fixed-point screen state can represent:
/// both sides positive and an aspect ratio within `[1/65536, 32767]`
/// of a unit, so the Q16.16 aspect is a positive `i32`.
pub open spec fn extent_ok(width: u32, height: u32) -> bool {
    &&& 1 <= width
    &&& 1 <= height
    &&& 1 <= aspect_of(width, height) <= i32::MAX
}

/// Decides [`extent_ok`], so the loop (and a real embedder) can test
/// a reported window extent before rebuilding: a minimized window
/// reports a zero extent, which never rebuilds successfully and must
/// keep the rebuild pending instead.
pub fn extent_usable(width: u32, height: u32) -> (b: bool)
    ensures
        b == extent_ok(width, height),
{
    if width < 1 || height < 1 {
        return false;
    }
    let aspect: u64 = (width as u64) * 65536 / (height as u64);
    1 <= aspect && aspect <= 0x7fff_ffff
}

/// Every entry of the script reports a usable window extent.
pub open spec fn usable_script(script: Seq<FrameInputs>) -> bool {
    forall|j: int|
        0 <= j < script.len() ==> extent_ok(
            (#[trigger] script[j]).window_width,
            script[j].window_height,
        )
}

/// How many entries of a script report a ready image — the frames a
/// run that consumes the whole script presents.
pub open spec fn ready_count(script: Seq<FrameInputs>) -> int
    decreases script.len(),
{
    if script.len() == 0 {
        0
    } else {
        ready_count(script.drop_last()) + if script.last().acquire is Ready {
            1int
        } else {
            0
        }
    }
}

/// The opaque completion signal of the previous frame's submission:
/// work submitted up to frame `frame` has been accepted by the GPU,
/// and waiting on (or chaining) this value stands for its completion.
/// The type is deliberately neither `Clone` nor `Copy`, so exactly
/// one handle is live at a time; each iteration consumes it through
/// [`PendingFrame::chain`] and threads the new one to the next.
pub struct PendingFrame {
    pub frame: u64,
}

impl PendingFrame {
    /// The already-complete sentinel the loop starts from, and resets
    /// to when a submission fails.
    pub fn completed() -> (p: PendingFrame)
        ensures
            p.frame == 0,
    {
        PendingFrame { frame: 0 }
    }

    /// The `Submit`/`Present` hand-off: the previous frame's signal is
    /// joined with the newly acquired image and consumed, yielding the
    /// signal of this frame's submission — the sole cross-frame
    /// ordering dependency.  A flush that did not complete resets the
    /// chain to the already-complete sentinel so the loop keeps making
    /// progress instead of deadlocking.
    pub fn chain(self, outcome: &FlushOutcome) -> (next: PendingFrame)
        requires
            self.frame < u64::MAX,
        ensures
            *outcome == FlushOutcome::Completed ==> next.frame == self.frame + 1,
            *outcome != FlushOutcome::Completed ==> next.frame == 0,
    {
        match outcome {
            FlushOutcome::Completed => PendingFrame { frame: self.frame + 1 },
            FlushOutcome::OutOfDate => PendingFrame { frame: 0 },
            FlushOutcome::Failed => PendingFrame { frame: 0 },
        }
    }
}

/// Why a run returned.
#[derive(Clone, Copy, Debug, PartialEq, Eq, Structural)]
pub enum RunOutcome {
    /// A close request was observed; the in-progress frame was
    /// completed first and no further image was acquired.
    Closed,
    /// A host hook returned the given error, halting the loop.
    Stopped(PumiceError),
    /// The platform script was exhausted with no close request.
    ScriptEnded,
}

/// What a scripted run did: why it returned, how many frames it
/// submitted for presentation, and how many times it rebuilt the
/// presentation chain.
pub struct RunReport {
    pub outcome: RunOutcome,
    pub frames_presented: usize,
    pub rebuilds: usize,
}

} // verus!
