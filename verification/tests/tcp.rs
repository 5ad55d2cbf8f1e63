//! Tests of the decisions of a TCP stream.
use threader::net::tcp::{
    connected, is_retry, peek, poll_rw, rw, waiting_peek, Connect, ConnectError, ErrorKind,
    Failure, PeekAction, PeekEvent, RwAction, RwEvent,
};

fn failure(kind: ErrorKind) -> Failure<&'static str> {
    Failure { kind, error: "error" }
}

// Runs a poll on a list of outcomes of its operation and of what it asks for.
fn run(events: Vec<RwEvent<usize, &'static str>>) -> Vec<RwAction<usize, &'static str>> {
    events.into_iter().map(poll_rw).collect()
}

#[test]
fn streams_are_registered_for_reading_and_writing() {
    assert_eq!(rw(), 3);
}

#[test]
fn errors_that_a_further_try_may_overcome() {
    assert!(is_retry(ErrorKind::WouldBlock));
    assert!(is_retry(ErrorKind::Interrupted));
    assert!(!is_retry(ErrorKind::Other));
}

#[test]
fn poll_returns_a_result() {
    assert!(matches!(
        poll_rw::<usize, &str>(RwEvent::Tried(Ok(4))),
        RwAction::Ready(Ok(4))
    ));
    assert!(matches!(
        poll_rw::<usize, &str>(RwEvent::Tried(Err(failure(ErrorKind::Other)))),
        RwAction::Ready(Err("error"))
    ));
}

#[test]
fn interrupted_operation_is_tried_again() {
    assert!(matches!(
        poll_rw::<usize, &str>(RwEvent::Tried(Err(failure(ErrorKind::Interrupted)))),
        RwAction::Try
    ));
}

#[test]
fn poll_that_would_block_waits() {
    let actions = run(vec![
        RwEvent::Tried(Err(failure(ErrorKind::WouldBlock))),
        RwEvent::Reregistered(Ok(())),
        RwEvent::Polled(None),
    ]);
    assert!(matches!(actions[0], RwAction::Reregister));
    assert!(matches!(actions[1], RwAction::Poll));
    assert!(matches!(actions[2], RwAction::Pending));
}

#[test]
fn poll_that_finds_readiness_tries_again() {
    let actions = run(vec![
        RwEvent::Tried(Err(failure(ErrorKind::WouldBlock))),
        RwEvent::Reregistered(Ok(())),
        RwEvent::Polled(Some(1)),
        RwEvent::Tried(Ok(9)),
    ]);
    assert!(matches!(actions[2], RwAction::Try));
    assert!(matches!(actions[3], RwAction::Ready(Ok(9))));
}

#[test]
fn poll_returns_the_error_of_a_reregistration() {
    assert!(matches!(
        poll_rw::<usize, &str>(RwEvent::Reregistered(Err("refused"))),
        RwAction::Ready(Err("refused"))
    ));
}

#[test]
fn peek_waits_until_there_is_data() {
    assert!(matches!(
        peek::<&str>(PeekEvent::Peeked(Ok(3))),
        PeekAction::Return(Ok(3))
    ));
    assert!(matches!(
        peek::<&str>(PeekEvent::Peeked(Err(failure(ErrorKind::Other)))),
        PeekAction::Return(Err("error"))
    ));
    assert!(matches!(
        peek::<&str>(PeekEvent::Peeked(Err(failure(ErrorKind::Interrupted)))),
        PeekAction::Peek
    ));
    assert!(matches!(
        peek::<&str>(PeekEvent::Peeked(Err(failure(ErrorKind::WouldBlock)))),
        PeekAction::Reregister
    ));
    assert!(matches!(
        peek::<&str>(PeekEvent::Reregistered(Ok(()))),
        PeekAction::AwaitReadable
    ));
    assert!(matches!(
        peek::<&str>(PeekEvent::Reregistered(Err("refused"))),
        PeekAction::Return(Err("refused"))
    ));
    assert!(matches!(peek::<&str>(PeekEvent::Readable), PeekAction::Peek));
}

#[test]
fn waiting_peek_overcomes_spurious_wakeups() {
    assert!(matches!(waiting_peek::<&str>(Ok(3)), PeekAction::Return(Ok(3))));
    assert!(matches!(
        waiting_peek(Err(failure(ErrorKind::WouldBlock))),
        PeekAction::AwaitReadable
    ));
    assert!(matches!(
        waiting_peek(Err(failure(ErrorKind::Interrupted))),
        PeekAction::Return(Err("error"))
    ));
}

#[test]
fn stream_without_an_error_is_connected() {
    assert_eq!(connected::<&str>(Ok(None)), Ok(()));
    assert_eq!(connected(Ok(Some("refused"))), Err("refused"));
    assert_eq!(connected(Err("unknown")), Err("unknown"));
}

#[test]
fn first_stream_is_taken() {
    let mut connect = Connect::new();
    assert_eq!(connect.attempted::<u8>(Err("first")), None);
    assert_eq!(connect.attempted(Ok(7)), Some(7));
}

#[test]
fn last_error_is_returned() {
    let mut connect = Connect::new();
    assert_eq!(connect.attempted::<u8>(Err("first")), None);
    assert_eq!(connect.attempted::<u8>(Err("second")), None);
    assert!(matches!(connect.failed(), ConnectError::Io("second")));
}

#[test]
fn nothing_to_connect_to() {
    let connect: Connect<&str> = Connect::new();
    assert!(matches!(connect.failed(), ConnectError::NoAddresses));
}
