//! The reader loop's decision logic and its sequence-level model.
//!
//! The loop owns the input stream exclusively. Each iteration decodes one
//! frame and hands the result, as a [`DecodeEvent`], to
//! [`reader_on_event`], which forwards a decoded message to the engine and
//! decides whether the loop keeps running or stops with which outcome. The
//! loop never reads concurrently and performs no further reads once it has
//! stopped; in particular, forwarding the exit notification is the last
//! thing it does.

use vstd::prelude::*;
use crate::channel::send_message;
use crate::message::Message;
use crate::outcome::{LoopOutcome, Step, TransportError};

verus! {

/// What one attempt to decode a frame from the input stream produced.
#[derive(Debug)]
pub enum DecodeEvent {
    /// One whole frame was decoded into a message.
    Decoded(Message),
    /// The stream ended cleanly before a new frame began.
    EndOfStream,
    /// A malformed frame or a read failure, with its description.
    Malformed(String),
}

/// The reader's transition once the forward of a decoded message has
/// resolved: a rejected forward (the engine dropped the inbound receiver)
/// is the channel-closed failure; a forwarded exit notification ends the
/// loop normally — after the forward, so the engine still receives it; any
/// other forwarded message leaves the loop running.
pub open spec fn after_forward_spec(was_exit: bool, forward: Result<(), Message>) -> Step {
    match forward {
        Err(_) => Step::Done(LoopOutcome::Failure(TransportError::ChannelClosed)),
        Ok(_) => if was_exit {
            Step::Done(LoopOutcome::Normal)
        } else {
            Step::Continue
        },
    }
}

/// Decides the reader's next step from the forward attempt's result.
pub fn after_forward(was_exit: bool, forward: Result<(), Message>) -> (r: Step)
    ensures
        r == after_forward_spec(was_exit, forward),
{
    match forward {
        Err(_) => Step::Done(LoopOutcome::Failure(TransportError::ChannelClosed)),
        Ok(_) => if was_exit {
            Step::Done(LoopOutcome::Normal)
        } else {
            Step::Continue
        },
    }
}

/// One iteration of the reader loop, given what the decode attempt
/// produced: a clean end of stream stops the loop normally; a decode or
/// read failure stops it with exactly that failure; a decoded message is
/// forwarded to the engine on `inbound`, and the loop then continues unless
/// the message was the exit notification (a normal stop) or the forward was
/// rejected (the channel-closed failure).
pub fn reader_on_event(inbound: &crossbeam_channel::Sender<Message>, event: DecodeEvent) -> (r:
    Step)
    ensures
        match event {
            DecodeEvent::EndOfStream => r == Step::Done(LoopOutcome::Normal),
            DecodeEvent::Malformed(d) => r == Step::Done(
                LoopOutcome::Failure(TransportError::DecodeOrRead(d)),
            ),
            DecodeEvent::Decoded(m) => {
                &&& (r == Step::Continue || r == Step::Done(LoopOutcome::Normal) || r == Step::Done(
                    LoopOutcome::Failure(TransportError::ChannelClosed),
                ))
                &&& (r == Step::Continue ==> !m.is_exit_spec())
                &&& (r == Step::Done(LoopOutcome::Normal) ==> m.is_exit_spec())
            },
        },
{
    match event {
        DecodeEvent::EndOfStream => Step::Done(LoopOutcome::Normal),
        DecodeEvent::Malformed(d) => Step::Done(
            LoopOutcome::Failure(TransportError::DecodeOrRead(d)),
        ),
        DecodeEvent::Decoded(m) => {
            let was_exit = m.is_exit();
            let forward = send_message(inbound, m);
            after_forward(was_exit, forward)
        },
    }
}

/// The messages the reader loop forwards to the engine, given the decode
/// events it would observe in order, assuming every forward is accepted
/// (the engine keeps the inbound receiver open). The loop forwards each
/// decoded message as it comes and consumes no event past the first
/// terminator: an end of stream, a failure, or a forwarded exit
/// notification.
pub open spec fn forwarded_messages(events: Seq<DecodeEvent>) -> Seq<Message>
    decreases events.len(),
{
    if events.len() == 0 {
        Seq::empty()
    } else {
        match events[0] {
            DecodeEvent::Decoded(m) => if m.is_exit_spec() {
                seq![m]
            } else {
                seq![m] + forwarded_messages(events.drop_first())
            },
            _ => Seq::empty(),
        }
    }
}

/// The reader loop's terminal outcome over the same events, under the same
/// assumption; `None` when the loop is still running after all of them.
pub open spec fn reader_outcome(events: Seq<DecodeEvent>) -> Option<LoopOutcome>
    decreases events.len(),
{
    if events.len() == 0 {
        None
    } else {
        match events[0] {
            DecodeEvent::EndOfStream => Some(LoopOutcome::Normal),
            DecodeEvent::Malformed(d) => Some(
                LoopOutcome::Failure(TransportError::DecodeOrRead(d)),
            ),
            DecodeEvent::Decoded(m) => if m.is_exit_spec() {
                Some(LoopOutcome::Normal)
            } else {
                reader_outcome(events.drop_first())
            },
        }
    }
}

/// The decode events of a stream that yields exactly `msgs`, in order.
pub open spec fn decoded_events(msgs: Seq<Message>) -> Seq<DecodeEvent> {
    msgs.map_values(|m: Message| DecodeEvent::Decoded(m))
}

/// Law: a stream of messages none of which is the exit notification,
/// ended by a clean end of file, is forwarded whole — exactly those
/// messages, in that order, none dropped, none duplicated, none reordered —
/// and the reader loop then stops normally.
pub proof fn lemma_reader_forwards_whole_stream(msgs: Seq<Message>)
    requires
        forall|i: int| 0 <= i < msgs.len() ==> !msgs[i].is_exit_spec(),
    ensures
        forwarded_messages(decoded_events(msgs).push(DecodeEvent::EndOfStream)) == msgs,
        reader_outcome(decoded_events(msgs).push(DecodeEvent::EndOfStream)) == Some(
            LoopOutcome::Normal,
        ),
    decreases msgs.len(),
{
    let events = decoded_events(msgs).push(DecodeEvent::EndOfStream);
    if msgs.len() == 0 {
        assert(events[0] == DecodeEvent::EndOfStream);
        assert(forwarded_messages(events) =~= msgs);
    } else {
        assert(events[0] == DecodeEvent::Decoded(msgs[0]));
        assert(!msgs[0].is_exit_spec());
        let rest = msgs.drop_first();
        assert forall|i: int| 0 <= i < rest.len() implies !rest[i].is_exit_spec() by {
            assert(rest[i] == msgs[i + 1]);
        }
        lemma_reader_forwards_whole_stream(rest);
        assert(events.drop_first() =~= decoded_events(rest).push(DecodeEvent::EndOfStream));
        assert(forwarded_messages(events) =~= msgs);
    }
}

/// Law: when position `k` of the stream (counting from 0) holds the first
/// exit notification, the reader forwards exactly the messages up to and
/// including it — the exit notification is still delivered — and then stops
/// normally; nothing past it is ever read or forwarded, whatever events
/// (`tail`) the rest of the stream would have produced.
pub proof fn lemma_reader_stops_after_exit(msgs: Seq<Message>, k: int, tail: Seq<DecodeEvent>)
    requires
        0 <= k < msgs.len(),
        msgs[k].is_exit_spec(),
        forall|i: int| 0 <= i < k ==> !msgs[i].is_exit_spec(),
    ensures
        forwarded_messages(decoded_events(msgs) + tail) == msgs.take(k + 1),
        reader_outcome(decoded_events(msgs) + tail) == Some(LoopOutcome::Normal),
    decreases k,
{
    let events = decoded_events(msgs) + tail;
    assert(events[0] == DecodeEvent::Decoded(msgs[0]));
    if k == 0 {
        assert(msgs[0].is_exit_spec());
        assert(forwarded_messages(events) =~= msgs.take(1));
    } else {
        assert(!msgs[0].is_exit_spec());
        let rest = msgs.drop_first();
        assert forall|i: int| 0 <= i < k - 1 implies !rest[i].is_exit_spec() by {
            assert(rest[i] == msgs[i + 1]);
        }
        assert(rest[k - 1] == msgs[k]);
        lemma_reader_stops_after_exit(rest, k - 1, tail);
        assert(events.drop_first() =~= decoded_events(rest) + tail);
        assert(forwarded_messages(events) =~= msgs.take(k + 1));
    }
}

} // verus!
