use lsp_stdio::message::{Message, Notification};
use lsp_stdio::outcome::{LoopOutcome, Step, TransportError};
use lsp_stdio::reader::{after_forward, reader_on_event, DecodeEvent};

fn request(content: &str) -> Message {
    Message::Request { content: String::from(content) }
}

fn notification(method: &str, content: &str) -> Message {
    Message::Notification(Notification {
        method: String::from(method),
        content: String::from(content),
    })
}

fn exit_notification() -> Message {
    notification("exit", "")
}

#[test]
fn exit_notification_is_exit() {
    assert!(exit_notification().is_exit());
}

#[test]
fn other_messages_are_not_exit() {
    assert!(!request("r").is_exit());
    assert!(!Message::Response { content: String::from("ok") }.is_exit());
    assert!(!notification("initialized", "{}").is_exit());
    assert!(!notification("exit2", "").is_exit());
    assert!(!notification("exi", "").is_exit());
}

#[test]
fn end_of_stream_stops_normally() {
    let (tx, _rx) = crossbeam_channel::unbounded::<Message>();
    let step = reader_on_event(&tx, DecodeEvent::EndOfStream);
    assert_eq!(step, Step::Done(LoopOutcome::Normal));
}

#[test]
fn decode_failure_stops_with_that_error() {
    let (tx, _rx) = crossbeam_channel::unbounded::<Message>();
    let step = reader_on_event(&tx, DecodeEvent::Malformed(String::from("truncated frame")));
    assert_eq!(
        step,
        Step::Done(LoopOutcome::Failure(TransportError::DecodeOrRead(String::from(
            "truncated frame"
        ))))
    );
}

#[test]
fn forwarded_message_continues() {
    let (tx, rx) = crossbeam_channel::unbounded::<Message>();
    let step = reader_on_event(&tx, DecodeEvent::Decoded(request("one")));
    assert_eq!(step, Step::Continue);
    assert_eq!(rx.try_recv().unwrap(), request("one"));
    assert!(rx.try_recv().is_err());
}

#[test]
fn exit_is_forwarded_then_stops() {
    let (tx, rx) = crossbeam_channel::unbounded::<Message>();
    let step = reader_on_event(&tx, DecodeEvent::Decoded(exit_notification()));
    assert_eq!(step, Step::Done(LoopOutcome::Normal));
    assert_eq!(rx.try_recv().unwrap(), exit_notification());
    assert!(rx.try_recv().is_err());
}

#[test]
fn dropped_receiver_is_channel_closed() {
    let (tx, rx) = crossbeam_channel::unbounded::<Message>();
    drop(rx);
    let step = reader_on_event(&tx, DecodeEvent::Decoded(request("lost")));
    assert_eq!(step, Step::Done(LoopOutcome::Failure(TransportError::ChannelClosed)));
}

#[test]
fn after_forward_maps_each_case() {
    assert_eq!(after_forward(false, Ok(())), Step::Continue);
    assert_eq!(after_forward(true, Ok(())), Step::Done(LoopOutcome::Normal));
    assert_eq!(
        after_forward(false, Err(request("back"))),
        Step::Done(LoopOutcome::Failure(TransportError::ChannelClosed))
    );
    assert_eq!(
        after_forward(true, Err(exit_notification())),
        Step::Done(LoopOutcome::Failure(TransportError::ChannelClosed))
    );
}

#[test]
fn stream_is_forwarded_in_order() {
    let (tx, rx) = crossbeam_channel::unbounded::<Message>();
    let msgs =
        vec![request("first"), notification("textDocument/didOpen", "{}"), request("third")];
    for m in msgs.clone() {
        assert_eq!(reader_on_event(&tx, DecodeEvent::Decoded(m)), Step::Continue);
    }
    assert_eq!(reader_on_event(&tx, DecodeEvent::EndOfStream), Step::Done(LoopOutcome::Normal));
    let forwarded: Vec<Message> = rx.try_iter().collect();
    assert_eq!(forwarded, msgs);
}

#[test]
fn nothing_after_exit_is_forwarded() {
    let (tx, rx) = crossbeam_channel::unbounded::<Message>();
    let msgs = vec![request("first"), exit_notification(), request("never read")];
    let mut delivered = 0;
    for m in msgs.clone() {
        delivered += 1;
        match reader_on_event(&tx, DecodeEvent::Decoded(m)) {
            Step::Continue => {}
            Step::Done(outcome) => {
                assert_eq!(outcome, LoopOutcome::Normal);
                break;
            }
        }
    }
    assert_eq!(delivered, 2);
    let forwarded: Vec<Message> = rx.try_iter().collect();
    assert_eq!(forwarded, vec![request("first"), exit_notification()]);
}
