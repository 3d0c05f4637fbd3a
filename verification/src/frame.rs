use vstd::prelude::*;

use crate::geometry::Extent;
use crate::geometry::resized;

verus! {

/// The reasons acquiring a presentable texture can fail, mirroring the
/// surface errors of the graphics backend.
#[derive(Clone, Copy, Debug, PartialEq, Eq, Structural)]
pub enum FrameError {
    Timeout,
    Outdated,
    Lost,
    OutOfMemory,
}

/// What the loop does after one frame-render attempt.
#[derive(Clone, Copy, Debug, PartialEq, Eq)]
pub enum FrameAction {
    /// The frame was presented: carry on.
    Continue,
    /// Recreate the surface by resizing to the given size.
    Recover(Extent),
    /// Report the error, skip the frame and carry on.
    Report(FrameError),
    /// Terminate the loop.
    Exit,
}

/// The reaction owed to one frame-render outcome: success needs nothing, a
/// lost surface is recovered by resizing to the current size, running out
/// of memory terminates the loop, and every other failure is only
/// reported.
pub open spec fn frame_outcome_action(outcome: Result<(), FrameError>, current: Extent) -> FrameAction {
    match outcome {
        Result::Ok(_) => FrameAction::Continue,
        Result::Err(FrameError::Lost) => FrameAction::Recover(current),
        Result::Err(FrameError::OutOfMemory) => FrameAction::Exit,
        Result::Err(e) => FrameAction::Report(e),
    }
}

/// Decide the reaction to one frame-render outcome, given the current
/// stored size.
pub fn on_frame_outcome(outcome: &Result<(), FrameError>, current: Extent) -> (a: FrameAction)
    ensures
        a == frame_outcome_action(*outcome, current),
{
    match outcome {
        Ok(_) => FrameAction::Continue,
        Err(FrameError::Lost) => FrameAction::Recover(current),
        Err(FrameError::OutOfMemory) => FrameAction::Exit,
        Err(e) => FrameAction::Report(*e),
    }
}

/// A lost surface is recovered by resizing to the current size, and that
/// resize leaves the size exactly as it was.
pub proof fn lemma_lost_recovery_is_idempotent(current: Extent)
    ensures
        frame_outcome_action(Err(FrameError::Lost), current) == FrameAction::Recover(current),
        resized(current, current) == current,
{
}

/// Running out of memory terminates the loop, and no other frame outcome
/// does.
pub proof fn lemma_only_out_of_memory_exits(outcome: Result<(), FrameError>, current: Extent)
    ensures
        frame_outcome_action(outcome, current) == FrameAction::Exit
            <==> outcome == Err::<(), FrameError>(FrameError::OutOfMemory),
{
}

} // verus!
