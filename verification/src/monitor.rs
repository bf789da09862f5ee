//! The event wait loop's decisions: what to do with a wait result, with a
//! validation result, and with a write result, and the loop's state machine
//! over the modeled file.

use vstd::prelude::*;
use crate::file_state::FileStatus;
use crate::file_state::WatchedFile;
use crate::file_state::corrected;
use crate::file_state::handle_change;

verus! {

/// What one blocking wait on the event queue reported.
#[derive(Clone, Copy, PartialEq, Eq, Structural, Debug)]
pub enum WaitOutcome {
    /// The wait returned normally, delivering this many events (possibly
    /// zero, on a spurious wake).
    Events { count: usize },
    /// The wait primitive itself reported an error.
    Failed,
}

/// What the loop does next, given a wait result.
#[derive(Clone, Copy, PartialEq, Eq, Structural, Debug)]
pub enum WakeAction {
    /// At least one qualifying event fired: validate the file and correct it.
    Validate,
    /// A spurious wake delivered no events: go back to waiting.
    Rewait,
    /// The wait failed: leave the loop and end the process normally.
    Shutdown,
}

/// The branch taken on each wait result: events hand off to the change
/// handler, an empty wake loops, and a wait error ends the loop.
pub fn on_wait_result(outcome: WaitOutcome) -> (a: WakeAction)
    ensures
        (a == WakeAction::Validate) <==> (outcome matches WaitOutcome::Events { count }
            && count > 0),
        (a == WakeAction::Rewait) <==> (outcome matches WaitOutcome::Events { count }
            && count == 0),
        (a == WakeAction::Shutdown) <==> outcome is Failed,
{
    match outcome {
        WaitOutcome::Events { count } => {
            if count > 0 {
                WakeAction::Validate
            } else {
                WakeAction::Rewait
            }
        },
        WaitOutcome::Failed => WakeAction::Shutdown,
    }
}

/// Whether the corrective overwrite is applied, given the file's status.
#[derive(Clone, Copy, PartialEq, Eq, Structural, Debug)]
pub enum WriteDecision {
    /// The path is an existing regular file: overwrite it with the payload.
    Overwrite,
    /// The file vanished or changed type: skip this cycle silently.
    Skip,
}

/// Validation before action: only an existing regular file is written; a
/// missing path or a type mismatch is absorbed without action.
pub fn on_validation(status: FileStatus) -> (d: WriteDecision)
    ensures
        (d == WriteDecision::Overwrite) <==> status == FileStatus::Regular,
{
    match status {
        FileStatus::Regular => WriteDecision::Overwrite,
        _ => WriteDecision::Skip,
    }
}

/// What becomes of the process after an attempted corrective write.
#[derive(Clone, Copy, PartialEq, Eq, Structural, Debug)]
pub enum WritePolicy {
    /// The write succeeded: return to waiting.
    Proceed,
    /// The write failed: abort at once, an unrecoverable integrity violation.
    Abort,
}

/// The fatal-on-write-failure policy: a failed corrective write is never
/// retried or absorbed, it aborts the process.
pub fn on_write_result(write_succeeded: bool) -> (p: WritePolicy)
    ensures
        (p == WritePolicy::Abort) <==> !write_succeeded,
{
    if write_succeeded {
        WritePolicy::Proceed
    } else {
        WritePolicy::Abort
    }
}

/// The loop's state: blocked on the kernel, or terminated after a wait error.
#[derive(Clone, Copy, PartialEq, Eq, Structural, Debug)]
pub enum MonitorState {
    Waiting,
    Terminated,
}

/// The enforcement agent: the fixed payload it pins the file to, and the
/// wait loop's state.
pub struct Monitor {
    pub payload: Vec<u8>,
    pub state: MonitorState,
}

impl Monitor {
    /// A fresh agent, holding the payload and ready to wait.
    pub fn new(payload: Vec<u8>) -> (m: Monitor)
        ensures
            m.payload@ == payload@,
            m.state == MonitorState::Waiting,
    {
        Monitor { payload, state: MonitorState::Waiting }
    }

    /// The payload this agent enforces.
    pub fn payload(&self) -> (p: &Vec<u8>)
        ensures
            p@ == self.payload@,
    {
        &self.payload
    }

    /// One iteration of the event wait loop, on the modeled file: delivered
    /// events run the change handler, a spurious wake does nothing, and a
    /// wait error terminates the loop without touching the file.
    pub fn step(&mut self, outcome: WaitOutcome, file: &mut WatchedFile) -> (wrote: bool)
        requires
            old(self).state == MonitorState::Waiting,
        ensures
            final(self).payload@ == old(self).payload@,
            outcome is Failed ==> final(self).state == MonitorState::Terminated
                && final(file)@ == old(file)@ && !wrote,
            (outcome matches WaitOutcome::Events { count } && count == 0) ==> final(self).state
                == MonitorState::Waiting && final(file)@ == old(file)@ && !wrote,
            (outcome matches WaitOutcome::Events { count } && count > 0) ==> final(self).state
                == MonitorState::Waiting && final(file)@ == corrected(
                old(file)@,
                old(self).payload@,
            ) && (wrote <==> old(file)@ is Regular),
    {
        match on_wait_result(outcome) {
            WakeAction::Validate => handle_change(file, &self.payload),
            WakeAction::Rewait => false,
            WakeAction::Shutdown => {
                self.state = MonitorState::Terminated;
                false
            },
        }
    }
}

} // verus!
