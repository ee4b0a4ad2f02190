use lsp_stdio::message::Message;
use lsp_stdio::outcome::{LoopOutcome, Step, TransportError};
use lsp_stdio::writer::{after_write, writer_decide, writer_next, WriterAction};

fn response(content: &str) -> Message {
    Message::Response { content: String::from(content) }
}

#[test]
fn writer_decide_maps_each_case() {
    assert_eq!(writer_decide(Some(response("a"))), WriterAction::Emit(response("a")));
    assert_eq!(writer_decide(None), WriterAction::Stop(LoopOutcome::Normal));
}

#[test]
fn after_write_maps_each_case() {
    assert_eq!(after_write(Ok(())), Step::Continue);
    assert_eq!(
        after_write(Err(String::from("broken pipe"))),
        Step::Done(LoopOutcome::Failure(TransportError::Write(String::from("broken pipe"))))
    );
}

#[test]
fn single_response_then_close() {
    let (tx, rx) = crossbeam_channel::unbounded::<Message>();
    tx.send(response("only")).unwrap();
    drop(tx);
    assert_eq!(writer_next(&rx), WriterAction::Emit(response("only")));
    assert_eq!(after_write(Ok(())), Step::Continue);
    assert_eq!(writer_next(&rx), WriterAction::Stop(LoopOutcome::Normal));
}

#[test]
fn outbound_messages_written_in_order() {
    let (tx, rx) = crossbeam_channel::unbounded::<Message>();
    let msgs = vec![response("one"), response("two"), response("three")];
    for m in msgs.clone() {
        tx.send(m).unwrap();
    }
    drop(tx);
    let mut written: Vec<Message> = Vec::new();
    let outcome = loop {
        match writer_next(&rx) {
            WriterAction::Emit(m) => {
                written.push(m);
                assert_eq!(after_write(Ok(())), Step::Continue);
            }
            WriterAction::Stop(outcome) => break outcome,
        }
    };
    assert_eq!(written, msgs);
    assert_eq!(outcome, LoopOutcome::Normal);
}

#[test]
fn write_failure_is_captured_not_fatal() {
    let (tx, rx) = crossbeam_channel::unbounded::<Message>();
    tx.send(response("doomed")).unwrap();
    match writer_next(&rx) {
        WriterAction::Emit(_) => {
            let step = after_write(Err(String::from("disk full")));
            assert_eq!(
                step,
                Step::Done(LoopOutcome::Failure(TransportError::Write(String::from("disk full"))))
            );
        }
        WriterAction::Stop(_) => panic!("a queued message must be emitted"),
    }
}
