//! Terminal outcomes of the two background loops, and the error taxonomy.

use vstd::prelude::*;

verus! {

/// The expected failure kinds of the transport.
#[derive(Debug, Clone, PartialEq, Eq)]
pub enum TransportError {
    /// A malformed frame or an I/O failure while reading; fatal to the
    /// reader loop only. Carries a description of the failure.
    DecodeOrRead(String),
    /// The opposite endpoint of a channel was dropped; fatal to whichever
    /// loop observed it.
    ChannelClosed,
    /// An I/O failure while writing or flushing; fatal to the writer loop
    /// only. Carries a description of the failure.
    Write(String),
}

/// The terminal state a loop itself reaches: each loop transitions exactly
/// once, from running to one of these, and never resumes.
#[derive(Debug, PartialEq, Eq)]
pub enum LoopOutcome {
    /// For the reader: end of stream, or the exit notification was observed
    /// and forwarded. For the writer: the outbound channel closed with no
    /// pending work.
    Normal,
    /// An expected failure stopped the loop.
    Failure(TransportError),
}

/// What a loop does after one iteration: keep running, or stop for good
/// with its terminal outcome.
#[derive(Debug, PartialEq, Eq)]
pub enum Step {
    Continue,
    Done(LoopOutcome),
}

/// The outcome of a background task as the shutdown coordinator sees it:
/// the loop's own terminal state, or an abnormal fault (an opaque payload of
/// type `F`) that interrupted the loop and must never be silently absorbed.
#[derive(Debug, PartialEq, Eq)]
pub enum TaskOutcome<F> {
    Normal,
    Failure(TransportError),
    Fault(F),
}

/// What a completed shutdown reports to the caller: success, an expected
/// transport error, or a re-raised abnormal fault.
#[derive(Debug, PartialEq, Eq)]
pub enum JoinVerdict<F> {
    Success,
    Error(TransportError),
    Fault(F),
}

/// How a background task's result, as observed when it is awaited, maps to
/// a task outcome: a task that ran to its own terminal state keeps it, and
/// one that was interrupted becomes an abnormal fault carrying the payload.
pub open spec fn task_outcome_spec<F>(joined: Result<LoopOutcome, F>) -> TaskOutcome<F> {
    match joined {
        Ok(LoopOutcome::Normal) => TaskOutcome::Normal,
        Ok(LoopOutcome::Failure(e)) => TaskOutcome::Failure(e),
        Err(f) => TaskOutcome::Fault(f),
    }
}

/// Classifies what awaiting a background task produced.
pub fn outcome_of_task<F>(joined: Result<LoopOutcome, F>) -> (r: TaskOutcome<F>)
    ensures
        r == task_outcome_spec(joined),
{
    match joined {
        Ok(LoopOutcome::Normal) => TaskOutcome::Normal,
        Ok(LoopOutcome::Failure(e)) => TaskOutcome::Failure(e),
        Err(f) => TaskOutcome::Fault(f),
    }
}

} // verus!
