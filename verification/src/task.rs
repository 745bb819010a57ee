//! What the handlers know of a task: its life-cycle phase, and the two ways
//! in which a handler gives the processor back to the scheduler.

use vstd::prelude::*;

verus! {

/// Phase of a task's life cycle, as the task table records it.
#[derive(Clone, Copy, Debug, PartialEq, Eq, Structural)]
pub enum TaskStatus {
    /// The table entry has not been set up yet.
    Uninitialized,
    /// The task can run and waits for the processor.
    Ready,
    /// The task holds the processor.
    Running,
    /// The task has terminated; it is never scheduled again.
    Exited,
}

impl TaskStatus {
    /// A terminal status is one that a task never leaves.
    pub open spec fn is_terminal(self) -> bool {
        self is Exited
    }
}

/// What a handler asks of the scheduler when the calling task gives up the
/// processor. The handler only decides; whoever drives the scheduler performs
/// the switch.
#[derive(Clone, Copy, Debug, PartialEq, Eq, Structural)]
pub enum Handoff {
    /// The calling task is over: record it as exited with `exit_code`, pick
    /// another task, and never run the caller again.
    Terminated { exit_code: i32 },
    /// The calling task stays runnable: pick another task, and when the caller
    /// is scheduled again continue it where it stopped, with `ret` as the
    /// value of the call.
    Suspended { ret: isize },
}

impl Handoff {
    /// Whether the calling task is ever continued after the switch.
    pub open spec fn resumes_caller(self) -> bool {
        self is Suspended
    }

    /// The status that the task table holds for the caller once the scheduler
    /// has taken over.
    pub open spec fn status_after(self) -> TaskStatus {
        match self {
            Handoff::Terminated { .. } => TaskStatus::Exited,
            Handoff::Suspended { .. } => TaskStatus::Ready,
        }
    }
}

} // verus!
