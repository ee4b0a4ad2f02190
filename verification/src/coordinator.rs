//! The shutdown coordinator's aggregation policy.
//!
//! `join` blocks until both loops have reached a terminal state and then
//! reconciles their outcomes: the reader's abnormal fault is re-raised at
//! once, before the writer is even awaited; a reader failure takes
//! precedence over anything the writer reports (the writer is still awaited
//! and drained); only when the reader ended normally does the writer's
//! outcome decide, with its fault re-raised and its failure reported.

use vstd::prelude::*;
use crate::outcome::{JoinVerdict, TaskOutcome};

verus! {

/// The verdict of a completed shutdown, given both loops' outcomes.
/// The reader's outcome takes precedence: its fault, then its failure, are
/// reported before anything of the writer's is considered; an abnormal
/// fault of either loop is passed through for re-raising, never converted
/// to an ordinary error.
pub open spec fn verdict_spec<F>(reader: TaskOutcome<F>, writer: TaskOutcome<F>) -> JoinVerdict<
    F,
> {
    match reader {
        TaskOutcome::Fault(f) => JoinVerdict::Fault(f),
        TaskOutcome::Failure(e) => JoinVerdict::Error(e),
        TaskOutcome::Normal => match writer {
            TaskOutcome::Fault(f) => JoinVerdict::Fault(f),
            TaskOutcome::Failure(e) => JoinVerdict::Error(e),
            TaskOutcome::Normal => JoinVerdict::Success,
        },
    }
}

/// The check applied right after the reader is awaited: an abnormal fault of
/// the reader is re-raised immediately, without awaiting or inspecting the
/// writer; any other reader outcome lets the shutdown go on to await the
/// writer.
pub fn reader_fault_check<F>(reader: TaskOutcome<F>) -> (r: Result<TaskOutcome<F>, F>)
    ensures
        match reader {
            TaskOutcome::Fault(f) => r == Err::<TaskOutcome<F>, F>(f),
            _ => r == Ok::<TaskOutcome<F>, F>(reader),
        },
{
    match reader {
        TaskOutcome::Fault(f) => Err(f),
        TaskOutcome::Normal => Ok(TaskOutcome::Normal),
        TaskOutcome::Failure(e) => Ok(TaskOutcome::Failure(e)),
    }
}

/// Reconciles the two loops' outcomes into the shutdown verdict, with the
/// reader's outcome taking precedence over the writer's.
pub fn aggregate<F>(reader: TaskOutcome<F>, writer: TaskOutcome<F>) -> (r: JoinVerdict<F>)
    ensures
        r == verdict_spec(reader, writer),
{
    match reader {
        TaskOutcome::Fault(f) => JoinVerdict::Fault(f),
        TaskOutcome::Failure(e) => JoinVerdict::Error(e),
        TaskOutcome::Normal => match writer {
            TaskOutcome::Fault(f) => JoinVerdict::Fault(f),
            TaskOutcome::Failure(e) => JoinVerdict::Error(e),
            TaskOutcome::Normal => JoinVerdict::Success,
        },
    }
}

} // verus!
