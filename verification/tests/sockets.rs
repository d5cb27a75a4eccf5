use picoprog::client::{
    read_result, write_result, Attempt, CallEvent, NonblockingCall, EXPECT_TIMEOUT_MS,
};
use picoprog::host::{read_step, ReadStep, SocketEvent, SocketWrite};
use picoprog::transport::IoErrorKind;

#[test]
fn socket_read_steps() {
    assert_eq!(read_step(Ok(3)), ReadStep::Return(Ok(3)));
    assert_eq!(read_step(Ok(0)), ReadStep::Return(Err(())));
    assert_eq!(read_step(Err(IoErrorKind::WouldBlock)), ReadStep::Retry { ms: 1 });
    assert_eq!(read_step(Err(IoErrorKind::TimedOut)), ReadStep::Return(Err(())));
    assert_eq!(read_step(Err(IoErrorKind::Other)), ReadStep::Return(Err(())));
}

#[test]
fn socket_write_sends_everything_once() {
    let data = [1u8, 2, 3, 4, 5];
    let mut wire: Vec<u8> = Vec::new();
    let mut write = SocketWrite::new(data.len());
    let mut replies = [
        Ok(2usize),
        Err(IoErrorKind::WouldBlock),
        Ok(0),
        Ok(1),
        Err(IoErrorKind::WouldBlock),
        Ok(2),
    ]
    .into_iter();
    let result = loop {
        match write {
            SocketWrite::Sending { offset, .. } => {
                let reply = replies.next().unwrap();
                if let Ok(n) = reply {
                    wire.extend_from_slice(&data[offset..offset + n]);
                }
                write.advance(SocketEvent::Sent(reply));
            }
            SocketWrite::Pausing { .. } => write.advance(SocketEvent::Slept),
            SocketWrite::Finished(result) => break result,
        }
    };
    assert_eq!(result, Ok(()));
    assert_eq!(wire, data);
    assert_eq!(replies.next(), None);
}

#[test]
fn socket_write_of_nothing_is_done() {
    assert_eq!(SocketWrite::new(0), SocketWrite::Finished(Ok(())));
}

#[test]
fn socket_write_fails_on_other_errors() {
    for kind in [IoErrorKind::TimedOut, IoErrorKind::Other] {
        let mut write = SocketWrite::new(4);
        write.advance(SocketEvent::Sent(Ok(1)));
        write.advance(SocketEvent::Sent(Err(kind)));
        assert_eq!(write, SocketWrite::Finished(Err(())));
    }
}

#[test]
fn failed_socket_write_has_sent_a_prefix() {
    let data = [1u8, 2, 3, 4];
    let mut wire: Vec<u8> = Vec::new();
    let mut write = SocketWrite::new(data.len());
    for reply in [Ok(2usize), Err(IoErrorKind::Other), Ok(2)] {
        if let (SocketWrite::Sending { offset, .. }, Ok(n)) = (write, reply) {
            wire.extend_from_slice(&data[offset..offset + n]);
        }
        write.advance(SocketEvent::Sent(reply));
    }
    assert_eq!(write, SocketWrite::Finished(Err(())));
    assert_eq!(wire, [1, 2]);
}

#[test]
fn socket_failure_outside_of_an_offer_is_ignored() {
    let mut write = SocketWrite::new(4);
    write.advance(SocketEvent::Sent(Err(IoErrorKind::WouldBlock)));
    write.advance(SocketEvent::Sent(Err(IoErrorKind::Other)));
    assert_eq!(write, SocketWrite::Pausing { offset: 0, len: 4 });
    let mut write = SocketWrite::new(1);
    write.advance(SocketEvent::Sent(Ok(1)));
    write.advance(SocketEvent::Sent(Err(IoErrorKind::Other)));
    assert_eq!(write, SocketWrite::Finished(Ok(())));
}

#[test]
fn socket_that_is_not_ready_is_offered_the_same_bytes() {
    let mut write = SocketWrite::new(4);
    write.advance(SocketEvent::Sent(Ok(3)));
    write.advance(SocketEvent::Sent(Err(IoErrorKind::WouldBlock)));
    assert_eq!(write, SocketWrite::Pausing { offset: 3, len: 4 });
    write.advance(SocketEvent::Slept);
    assert_eq!(write, SocketWrite::Sending { offset: 3, len: 4 });
}

#[test]
fn nonblocking_read_results() {
    assert_eq!(read_result::<&str>(Attempt::Done(4)), Ok(4));
    for kind in [IoErrorKind::TimedOut, IoErrorKind::WouldBlock] {
        assert_eq!(read_result(Attempt::Failed { kind, error: "late" }), Ok(0));
    }
    let failed = Attempt::Failed { kind: IoErrorKind::Other, error: "gone" };
    assert_eq!(read_result(failed), Err("gone"));
}

#[test]
fn nonblocking_write_results() {
    assert_eq!(write_result::<&str>(Attempt::Done(())), Ok(true));
    for kind in [IoErrorKind::TimedOut, IoErrorKind::WouldBlock] {
        assert_eq!(write_result(Attempt::Failed { kind, error: "late" }), Ok(false));
    }
    let failed = Attempt::Failed { kind: IoErrorKind::Other, error: "gone" };
    assert_eq!(write_result(failed), Err("gone"));
}

fn call(
    set: Result<(), &'static str>,
    moved: Result<usize, &'static str>,
    restored: Result<(), &'static str>,
) -> (Result<usize, &'static str>, usize) {
    let mut call = NonblockingCall::new(250);
    let mut restores: usize = 0;
    loop {
        let event = match &call {
            NonblockingCall::SetTimeout { timeout_ms } => {
                assert_eq!(*timeout_ms, 250);
                CallEvent::TimeoutSet(set)
            }
            NonblockingCall::Transfer => CallEvent::Transferred(moved),
            NonblockingCall::RestoreTimeout { timeout_ms, .. } => {
                assert_eq!(*timeout_ms, 5000);
                restores += 1;
                CallEvent::TimeoutRestored(restored)
            }
            NonblockingCall::Return(result) => return (*result, restores),
        };
        call = call.advance(event);
    }
}

#[test]
fn nonblocking_call_restores_the_timeout() {
    assert_eq!(call(Ok(()), Ok(3), Ok(())), (Ok(3), 1));
    assert_eq!(call(Ok(()), Err("gone"), Ok(())), (Err("gone"), 1));
    assert_eq!(call(Ok(()), Ok(3), Err("stuck")), (Err("stuck"), 1));
    assert_eq!(call(Ok(()), Err("gone"), Err("stuck")), (Err("stuck"), 1));
    assert_eq!(call(Err("zero"), Ok(3), Ok(())), (Err("zero"), 0));
    assert_eq!(EXPECT_TIMEOUT_MS, 5000);
}

#[test]
fn nonblocking_call_ignores_foreign_events() {
    let call: NonblockingCall<usize, &str> =
        NonblockingCall::new(1).advance(CallEvent::Transferred(Ok(1)));
    assert!(matches!(call, NonblockingCall::SetTimeout { timeout_ms: 1 }));
    let call = call.advance(CallEvent::TimeoutRestored(Ok(())));
    assert!(matches!(call, NonblockingCall::SetTimeout { timeout_ms: 1 }));
}
