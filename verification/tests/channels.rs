use lsp_stdio::channel::{inbound_channel, outbound_channel, OUTBOUND_CAPACITY};
use lsp_stdio::message::Message;
use lsp_stdio::outcome::{LoopOutcome, Step, TransportError};
use lsp_stdio::reader::{reader_on_event, DecodeEvent};

fn response(content: &str) -> Message {
    Message::Response { content: String::from(content) }
}

#[test]
fn inbound_channel_is_rendezvous() {
    let (tx, rx) = inbound_channel();
    assert_eq!(rx.capacity(), Some(0));
    assert_eq!(tx.capacity(), Some(0));
}

#[test]
fn outbound_channel_has_the_documented_capacity() {
    let (tx, rx) = outbound_channel();
    assert_eq!(rx.capacity(), Some(OUTBOUND_CAPACITY));
    // A full buffer's worth of sends completes without a receiver draining.
    for i in 0..OUTBOUND_CAPACITY {
        tx.send(response(&format!("{i}"))).unwrap();
    }
    assert!(tx.is_full());
    for i in 0..OUTBOUND_CAPACITY {
        assert_eq!(rx.try_recv().unwrap(), response(&format!("{i}")));
    }
    assert!(rx.try_recv().is_err());
}

#[test]
fn outbound_channel_round_trips_a_message() {
    let (tx, rx) = outbound_channel();
    tx.send(response("queued")).unwrap();
    assert_eq!(rx.try_recv().unwrap(), response("queued"));
}

#[test]
fn rendezvous_forward_fails_once_engine_is_gone() {
    let (tx, rx) = inbound_channel();
    drop(rx);
    let step = reader_on_event(&tx, DecodeEvent::Decoded(response("undeliverable")));
    assert_eq!(step, Step::Done(LoopOutcome::Failure(TransportError::ChannelClosed)));
}
