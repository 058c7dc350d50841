//! The frame driver's decision: what one attempt to acquire the next frame
//! leads to.

use vstd::prelude::*;

verus! {

/// What came back from one attempt to acquire the next frame from the
/// presentable surface.
#[derive(Clone, Copy, Debug, PartialEq, Eq, Structural)]
pub enum Acquisition {
    /// A frame was acquired and can be rendered to and presented.
    Frame,
    /// The surface was lost and has to be configured again.
    Lost,
    /// The surface no longer matches the window and has to be configured again.
    Outdated,
    /// No memory is left to allocate a frame.
    OutOfMemory,
    /// The frame did not become available in time.
    Timeout,
    /// Any other failure that the next attempt may not meet again.
    Other,
}

/// What the frame driver does with one acquisition.
#[derive(Clone, Copy, Debug, PartialEq, Eq, Structural)]
pub enum FrameVerdict {
    /// Record the render work, submit it and present the frame.
    Present,
    /// Skip the frame and push the stored configuration to the surface again.
    Reconfigure,
    /// Give up: the process has to end.
    Terminate,
    /// Skip the frame and log the failure; the next redraw tries again.
    Skip,
}

/// The verdict on each acquisition: a stale surface is recovered by
/// reconfiguration, exhausted memory ends the process, and every other
/// failure costs one frame.
pub open spec fn verdict_of(acquisition: Acquisition) -> FrameVerdict {
    match acquisition {
        Acquisition::Frame => FrameVerdict::Present,
        Acquisition::Lost | Acquisition::Outdated => FrameVerdict::Reconfigure,
        Acquisition::OutOfMemory => FrameVerdict::Terminate,
        Acquisition::Timeout | Acquisition::Other => FrameVerdict::Skip,
    }
}

/// Classifies the outcome of the single acquisition attempt of a redraw.
pub fn classify(acquisition: Acquisition) -> (verdict: FrameVerdict)
    ensures
        verdict == verdict_of(acquisition),
        verdict == FrameVerdict::Present <==> acquisition == Acquisition::Frame,
        verdict == FrameVerdict::Terminate <==> acquisition == Acquisition::OutOfMemory,
        verdict == FrameVerdict::Reconfigure <==> (acquisition == Acquisition::Lost
            || acquisition == Acquisition::Outdated),
{
    match acquisition {
        Acquisition::Frame => FrameVerdict::Present,
        Acquisition::Lost => FrameVerdict::Reconfigure,
        Acquisition::Outdated => FrameVerdict::Reconfigure,
        Acquisition::OutOfMemory => FrameVerdict::Terminate,
        Acquisition::Timeout => FrameVerdict::Skip,
        Acquisition::Other => FrameVerdict::Skip,
    }
}

} // verus!
