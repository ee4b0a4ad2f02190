//! The channel pair connecting the engine to the two loops, with the
//! backpressure policy, over crossbeam's multi-producer multi-consumer
//! channels.
//!
//! Policy: the inbound path (reader loop to engine) is a zero-capacity
//! rendezvous channel, so a burst of incoming messages is never buffered
//! while the engine is busy — each forward completes only when the engine
//! takes the message. The outbound path (engine to writer loop) is bounded
//! at [`OUTBOUND_CAPACITY`], keeping memory predictable while letting the
//! engine run ahead of the output stream by a fixed amount.

use vstd::prelude::*;
use crate::message::Message;

verus! {

#[verifier::external_type_specification]
#[verifier::external_body]
#[verifier::reject_recursive_types(T)]
pub struct ExSender<T>(crossbeam_channel::Sender<T>);

#[verifier::external_type_specification]
#[verifier::external_body]
#[verifier::reject_recursive_types(T)]
pub struct ExReceiver<T>(crossbeam_channel::Receiver<T>);

/// The fixed capacity of the outbound channel (engine to writer loop).
pub const OUTBOUND_CAPACITY: usize = 64;

/// The capacity a bounded channel was created with, as a property of its
/// receiving end: the greatest number of messages the channel can hold.
/// Zero makes it a rendezvous channel.
pub uninterp spec fn channel_capacity(r: crossbeam_channel::Receiver<Message>) -> nat;

/// Relies on crossbeam_channel::bounded: a first-in first-out channel of
/// exactly the given capacity; with capacity zero, a rendezvous channel on
/// which a send completes only when a receive is ready to take the message.
#[verifier::external_body]
fn bounded_channel(cap: usize) -> (r: (
    crossbeam_channel::Sender<Message>,
    crossbeam_channel::Receiver<Message>,
))
    ensures
        channel_capacity(r.1) == cap as nat,
{
    crossbeam_channel::bounded(cap)
}

/// The inbound channel, reader loop to engine: a rendezvous channel — its
/// capacity is zero, so at most one decoded message is ever in flight, and
/// the stream is read no faster than the engine consumes it.
pub fn inbound_channel() -> (r: (
    crossbeam_channel::Sender<Message>,
    crossbeam_channel::Receiver<Message>,
))
    ensures
        channel_capacity(r.1) == 0,
{
    bounded_channel(0)
}

/// The outbound channel, engine to writer loop: bounded at exactly
/// [`OUTBOUND_CAPACITY`].
pub fn outbound_channel() -> (r: (
    crossbeam_channel::Sender<Message>,
    crossbeam_channel::Receiver<Message>,
))
    ensures
        channel_capacity(r.1) == OUTBOUND_CAPACITY as nat,
{
    bounded_channel(OUTBOUND_CAPACITY)
}

/// Relies on crossbeam_channel::Sender::send: blocks until the channel has
/// room (for a rendezvous channel, until a receive is ready), delivers the
/// message, and fails only when every receiver has been dropped, handing the
/// original message back in the error.
#[verifier::external_body]
pub(crate) fn send_message(s: &crossbeam_channel::Sender<Message>, m: Message) -> (r: Result<
    (),
    Message,
>)
    ensures
        match r {
            Ok(_) => true,
            Err(back) => back == m,
        },
{
    match s.send(m) {
        Ok(()) => Ok(()),
        Err(e) => Err(e.0),
    }
}

/// Relies on crossbeam_channel::Receiver::recv: blocks until a message
/// arrives, and returns nothing only once every sender has been dropped and
/// the channel is drained. Which of the two happens, and which message
/// arrives, depends on the senders' side.
#[verifier::external_body]
pub(crate) fn recv_message(r: &crossbeam_channel::Receiver<Message>) -> Option<Message> {
    match r.recv() {
        Ok(m) => Some(m),
        Err(_) => None,
    }
}

} // verus!
