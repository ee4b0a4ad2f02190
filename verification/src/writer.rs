//! The writer loop's decision logic and its sequence-level model.
//!
//! The loop owns the output stream exclusively, so frames are written whole,
//! never interleaved. Each iteration blocks on the outbound channel through
//! [`writer_next`]; a received message is encoded, written and flushed by
//! the caller, which then hands the result to [`after_write`] to decide
//! whether the loop keeps running or stops with which outcome.

use vstd::prelude::*;
use crate::channel::recv_message;
use crate::message::Message;
use crate::outcome::{LoopOutcome, Step, TransportError};

verus! {

/// What the writer loop does after one blocking receive: write a message,
/// or stop with its terminal outcome.
#[derive(Debug, PartialEq, Eq)]
pub enum WriterAction {
    /// Encode, write and flush this message, then report back through
    /// [`after_write`].
    Emit(Message),
    /// No message will ever arrive again: stop with this outcome.
    Stop(LoopOutcome),
}

/// The writer's decision for what one blocking receive produced: a
/// received message is written next; a channel that closed with no pending
/// work ends the loop normally.
pub open spec fn writer_action_spec(received: Option<Message>) -> WriterAction {
    match received {
        Some(m) => WriterAction::Emit(m),
        None => WriterAction::Stop(LoopOutcome::Normal),
    }
}

/// Decides the writer's next action from what the receive produced.
pub fn writer_decide(received: Option<Message>) -> (r: WriterAction)
    ensures
        r == writer_action_spec(received),
{
    match received {
        Some(m) => WriterAction::Emit(m),
        None => WriterAction::Stop(LoopOutcome::Normal),
    }
}

/// One blocking step of the writer loop: waits on the outbound channel and
/// decides. Whatever the senders' side does, the loop never stops here with
/// anything but a normal outcome: the receive itself cannot fail, only end.
pub fn writer_next(outbound: &crossbeam_channel::Receiver<Message>) -> (r: WriterAction)
    ensures
        match r {
            WriterAction::Stop(o) => o == LoopOutcome::Normal,
            WriterAction::Emit(_) => true,
        },
{
    writer_decide(recv_message(outbound))
}

/// The writer's transition once the write and flush of a message has
/// resolved: success keeps the loop running; a failure, described by the
/// given text, stops the loop with exactly the write failure — an expected
/// outcome reported at shutdown, never a fault and never a reason to abort
/// the process.
pub open spec fn after_write_spec(result: Result<(), String>) -> Step {
    match result {
        Ok(_) => Step::Continue,
        Err(d) => Step::Done(LoopOutcome::Failure(TransportError::Write(d))),
    }
}

/// Decides the writer's next step from the write attempt's result.
pub fn after_write(result: Result<(), String>) -> (r: Step)
    ensures
        r == after_write_spec(result),
{
    match result {
        Ok(_) => Step::Continue,
        Err(d) => Step::Done(LoopOutcome::Failure(TransportError::Write(d))),
    }
}

/// What one blocking receive on the outbound channel produced, in the
/// sequence-level model of the loop.
#[derive(Debug)]
pub enum RecvEvent {
    /// The channel handed over this message.
    Received(Message),
    /// Every sender was dropped and the channel is drained; nothing will
    /// ever arrive again.
    Disconnected,
}

/// The messages the writer loop writes to the output stream, given the
/// receive events it would observe in order, assuming every write
/// succeeds. The loop writes each received message as it comes and stops
/// at the first disconnection.
pub open spec fn written_messages(events: Seq<RecvEvent>) -> Seq<Message>
    decreases events.len(),
{
    if events.len() == 0 {
        Seq::empty()
    } else {
        match events[0] {
            RecvEvent::Received(m) => seq![m] + written_messages(events.drop_first()),
            RecvEvent::Disconnected => Seq::empty(),
        }
    }
}

/// The writer loop's terminal outcome over the same events, under the same
/// assumption; `None` when the loop is still running after all of them.
pub open spec fn writer_outcome(events: Seq<RecvEvent>) -> Option<LoopOutcome>
    decreases events.len(),
{
    if events.len() == 0 {
        None
    } else {
        match events[0] {
            RecvEvent::Received(_) => writer_outcome(events.drop_first()),
            RecvEvent::Disconnected => Some(LoopOutcome::Normal),
        }
    }
}

/// The receive events of an outbound channel that delivers exactly `msgs`,
/// in order — which is what the channel does: it is first-in first-out.
pub open spec fn received_events(msgs: Seq<Message>) -> Seq<RecvEvent> {
    msgs.map_values(|m: Message| RecvEvent::Received(m))
}

/// Law: the messages handed to the outbound channel are written whole and
/// in order — the output stream carries exactly those frames, in the order
/// they were sent, with nothing dropped, duplicated or interleaved — and
/// once the channel closes with no pending work the writer stops normally.
pub proof fn lemma_writer_writes_whole_sequence(msgs: Seq<Message>)
    ensures
        written_messages(received_events(msgs).push(RecvEvent::Disconnected)) == msgs,
        writer_outcome(received_events(msgs).push(RecvEvent::Disconnected)) == Some(
            LoopOutcome::Normal,
        ),
    decreases msgs.len(),
{
    let events = received_events(msgs).push(RecvEvent::Disconnected);
    if msgs.len() == 0 {
        assert(events[0] == RecvEvent::Disconnected);
        assert(written_messages(events) =~= msgs);
    } else {
        assert(events[0] == RecvEvent::Received(msgs[0]));
        let rest = msgs.drop_first();
        lemma_writer_writes_whole_sequence(rest);
        assert(events.drop_first() =~= received_events(rest).push(RecvEvent::Disconnected));
        assert(written_messages(events) =~= msgs);
    }
}

} // verus!
