//! The engine's transport on a host: a nonblocking TCP socket.
//!
//! A read returns whatever bytes are available, partial fills included. A
//! socket that is not ready is left alone for a moment, so that the executor
//! can run other work, and then tried again.

use crate::transport::IoErrorKind;
use vstd::prelude::*;

verus! {

/// How long the transport leaves a socket alone that was not ready.
pub const RETRY_MS: u64 = 1;

/// What a read of the socket leads to.
#[derive(Clone, Copy, PartialEq, Eq, Debug)]
pub enum ReadStep {
    /// The read is done.
    Return(Result<usize, ()>),
    /// Wait this many milliseconds, yield, and read again.
    Retry { ms: u64 },
}

/// What `attempt`, a read of the socket, leads to.
pub open spec fn read_leads_to(attempt: Result<usize, IoErrorKind>) -> ReadStep {
    match attempt {
        Ok(n) => ReadStep::Return(
            if n > 0 {
                Ok(n)
            } else {
                Err(())
            },
        ),
        Err(IoErrorKind::WouldBlock) => ReadStep::Retry { ms: RETRY_MS },
        Err(_) => ReadStep::Return(Err(())),
    }
}

/// What `attempt`, a read of the socket, leads to. A stream that delivers no
/// byte has been closed by the client.
pub fn read_step(attempt: Result<usize, IoErrorKind>) -> (step: ReadStep)
    ensures
        step == read_leads_to(attempt),
{
    match attempt {
        Ok(n) => if n == 0 {
            ReadStep::Return(Err(()))
        } else {
            ReadStep::Return(Ok(n))
        },
        Err(IoErrorKind::WouldBlock) => ReadStep::Retry { ms: RETRY_MS },
        Err(_) => ReadStep::Return(Err(())),
    }
}

/// A write of `len` bytes in progress, between two steps.
#[derive(Clone, Copy, PartialEq, Eq, Debug)]
pub enum SocketWrite {
    /// The bytes from `offset` on are to be offered to the socket.
    Sending { offset: usize, len: usize },
    /// The socket was not ready: wait [`RETRY_MS`] milliseconds and yield.
    Pausing { offset: usize, len: usize },
    /// The write is done.
    Finished(Result<(), ()>),
}

/// What came of a step of a write.
#[derive(Clone, Copy, PartialEq, Eq, Debug)]
pub enum SocketEvent {
    /// The socket took this many of the bytes offered, or failed.
    Sent(Result<usize, IoErrorKind>),
    /// The pause is over.
    Slept,
}

impl SocketWrite {
    /// A write of `len` bytes of which `offset` are sent.
    pub open spec fn sending(offset: int, len: usize) -> SocketWrite {
        if offset < len {
            SocketWrite::Sending { offset: offset as usize, len }
        } else {
            SocketWrite::Finished(Ok(()))
        }
    }

    /// The write after `event`. An event that does not answer the pending
    /// step changes nothing.
    pub open spec fn next(self, event: SocketEvent) -> SocketWrite {
        match (self, event) {
            (SocketWrite::Sending { offset, len }, SocketEvent::Sent(Ok(n))) =>
                SocketWrite::sending(offset + n, len),
            (
                SocketWrite::Sending { offset, len },
                SocketEvent::Sent(Err(IoErrorKind::WouldBlock)),
            ) => SocketWrite::Pausing { offset, len },
            (SocketWrite::Sending { .. }, SocketEvent::Sent(Err(_))) => SocketWrite::Finished(
                Err(()),
            ),
            (SocketWrite::Pausing { offset, len }, SocketEvent::Slept) => SocketWrite::Sending {
                offset,
                len,
            },
            _ => self,
        }
    }

    /// The write after all of `events`.
    pub open spec fn run(self, events: Seq<SocketEvent>) -> SocketWrite
        decreases events.len(),
    {
        if events.len() == 0 {
            self
        } else {
            self.run(events.drop_last()).next(events.last())
        }
    }

    /// The bytes of `data` that the socket takes with `event`.
    pub open spec fn taken(self, data: Seq<u8>, event: SocketEvent) -> Seq<u8> {
        match (self, event) {
            (SocketWrite::Sending { offset, .. }, SocketEvent::Sent(Ok(n))) => data.subrange(
                offset as int,
                offset + n,
            ),
            _ => Seq::empty(),
        }
    }

    /// The bytes of `data` that the socket takes over all of `events`.
    pub open spec fn wire(self, data: Seq<u8>, events: Seq<SocketEvent>) -> Seq<u8>
        decreases events.len(),
    {
        if events.len() == 0 {
            Seq::empty()
        } else {
            self.wire(data, events.drop_last()) + self.run(events.drop_last()).taken(
                data,
                events.last(),
            )
        }
    }

    /// Whether the socket took no more than it was offered with `event`.
    pub open spec fn honest(self, event: SocketEvent) -> bool {
        match (self, event) {
            (SocketWrite::Sending { offset, len }, SocketEvent::Sent(Ok(n))) => offset + n <= len,
            _ => true,
        }
    }

    /// Whether `event` makes the write fail: the socket was offered bytes, and
    /// failed for another reason than that it was not ready.
    pub open spec fn fails_on(self, event: SocketEvent) -> bool {
        &&& self is Sending
        &&& event matches SocketEvent::Sent(Err(kind))
        &&& kind != IoErrorKind::WouldBlock
    }

    /// A write of `len` bytes.
    pub fn new(len: usize) -> (write: SocketWrite)
        ensures
            write == SocketWrite::sending(0, len),
    {
        if len > 0 {
            SocketWrite::Sending { offset: 0, len }
        } else {
            SocketWrite::Finished(Ok(()))
        }
    }

    /// Takes one event.
    pub fn advance(&mut self, event: SocketEvent)
        ensures
            *final(self) == old(self).next(event),
    {
        match (*self, event) {
            (SocketWrite::Sending { offset, len }, SocketEvent::Sent(Ok(n))) => {
                if offset < len && n < len - offset {
                    *self = SocketWrite::Sending { offset: offset + n, len };
                } else {
                    *self = SocketWrite::Finished(Ok(()));
                }
            },
            (SocketWrite::Sending { offset, len }, SocketEvent::Sent(Err(kind))) => {
                match kind {
                    IoErrorKind::WouldBlock => {
                        *self = SocketWrite::Pausing { offset, len };
                    },
                    _ => {
                        *self = SocketWrite::Finished(Err(()));
                    },
                }
            },
            (SocketWrite::Pausing { offset, len }, SocketEvent::Slept) => {
                *self = SocketWrite::Sending { offset, len };
            },
            _ => {},
        }
    }
}

/// A write that reports success has put every byte on the wire, once and in
/// order, however the socket cut it; one that is still going has put there
/// exactly the bytes that it counts as sent; and one that failed has put there
/// the first of the bytes, and not all of them.
pub proof fn law_write_sends_everything_once(data: Seq<u8>, len: usize, events: Seq<SocketEvent>)
    requires
        data.len() == len,
        forall|i: int|
            0 <= i < events.len() ==> (#[trigger] SocketWrite::sending(0, len).run(
                events.take(i),
            )).honest(events[i]),
    ensures
        match SocketWrite::sending(0, len).run(events) {
            SocketWrite::Sending { offset, len: l } => {
                &&& l == len
                &&& offset < len
                &&& SocketWrite::sending(0, len).wire(data, events) == data.take(offset as int)
            },
            SocketWrite::Pausing { offset, len: l } => {
                &&& l == len
                &&& offset < len
                &&& SocketWrite::sending(0, len).wire(data, events) == data.take(offset as int)
            },
            SocketWrite::Finished(Ok(_)) => SocketWrite::sending(0, len).wire(data, events) == data,
            SocketWrite::Finished(Err(_)) => exists|k: int|
                0 <= k < len && SocketWrite::sending(0, len).wire(data, events)
                    == #[trigger] data.take(k),
        },
    decreases events.len(),
{
    let start = SocketWrite::sending(0, len);
    if events.len() == 0 {
        assert(data.take(0) =~= Seq::<u8>::empty());
        if len == 0 {
            assert(data =~= Seq::<u8>::empty());
        }
    } else {
        let before = events.drop_last();
        assert forall|i: int| 0 <= i < before.len() implies (#[trigger] start.run(
            before.take(i),
        )).honest(before[i]) by {
            assert(before.take(i) =~= events.take(i));
            assert(start.run(events.take(i)).honest(events[i]));
        }
        law_write_sends_everything_once(data, len, before);
        assert(events.take(events.len() - 1) =~= before);
        assert(start.run(events.take(events.len() - 1)).honest(events.last()));
        let sent = start.wire(data, before);
        assert(sent + Seq::<u8>::empty() =~= sent);
        if let SocketWrite::Sending { offset, .. } = start.run(before) {
            if let SocketEvent::Sent(Ok(n)) = events.last() {
                assert(data.take(offset as int) + data.subrange(offset as int, offset + n)
                    =~= data.take(offset + n));
                assert(data.take(len as int) =~= data);
            }
        }
    }
}

/// A write fails exactly when the socket, while bytes are offered to it, fails
/// for another reason than that it was not ready.
pub proof fn law_write_fails_exactly_on_socket_failure(len: usize, events: Seq<SocketEvent>)
    ensures
        SocketWrite::sending(0, len).run(events) == SocketWrite::Finished(Err(())) <==> exists|
            i: int,
        |
            0 <= i < events.len() && (#[trigger] SocketWrite::sending(0, len).run(
                events.take(i),
            )).fails_on(events[i]),
    decreases events.len(),
{
    let start = SocketWrite::sending(0, len);
    if events.len() > 0 {
        let before = events.drop_last();
        let last = events.len() - 1;
        law_write_fails_exactly_on_socket_failure(len, before);
        assert(events.take(last) =~= before);
        assert forall|i: int| 0 <= i < before.len() implies #[trigger] before.take(i) == events.take(
            i,
        ) by {
            assert(before.take(i) =~= events.take(i));
        }
        if start.run(events) == SocketWrite::Finished(Err(())) {
            if start.run(before) == SocketWrite::Finished(Err(())) {
                let i = choose|i: int|
                    0 <= i < before.len() && (#[trigger] start.run(before.take(i))).fails_on(
                        before[i],
                    );
                assert(start.run(events.take(i)).fails_on(events[i]));
            } else {
                assert(start.run(events.take(last)).fails_on(events[last]));
            }
        }
        if exists|i: int|
            0 <= i < events.len() && (#[trigger] start.run(events.take(i))).fails_on(events[i]) {
            let i = choose|i: int|
                0 <= i < events.len() && (#[trigger] start.run(events.take(i))).fails_on(events[i]);
            if i < last {
                assert(start.run(before.take(i)).fails_on(before[i]));
            }
        }
    }
}

/// A read hands on every count but zero, is tried again after a millisecond
/// exactly when the socket was not ready, and ends the session otherwise.
pub proof fn law_read_steps(attempt: Result<usize, IoErrorKind>, n: usize)
    ensures
        read_leads_to(attempt) == ReadStep::Return(Ok(n)) <==> attempt == Ok::<usize, IoErrorKind>(n)
            && n > 0,
        read_leads_to(attempt) is Retry <==> attempt == Err::<usize, IoErrorKind>(
            IoErrorKind::WouldBlock,
        ),
        read_leads_to(attempt) matches ReadStep::Retry { ms } ==> ms == 1,
        read_leads_to(attempt) == ReadStep::Return(Err(())) <==> attempt == Ok::<usize, IoErrorKind>(
            0,
        ) || attempt == Err::<usize, IoErrorKind>(IoErrorKind::TimedOut) || attempt == Err::<
            usize,
            IoErrorKind,
        >(IoErrorKind::Other),
{
}

/// How a write goes on. It starts with all of its bytes to be offered, or is
/// done where there are none. What the socket takes is not offered again; the
/// write is done once nothing is left. Of the failures only that the socket was
/// not ready leads to a pause, and every other one ends the write.
pub proof fn law_write_steps(offset: usize, len: usize, n: usize, kind: IoErrorKind)
    ensures
        len == 0 ==> SocketWrite::sending(0, len) == SocketWrite::Finished(Ok(())),
        len > 0 ==> SocketWrite::sending(0, len) == (SocketWrite::Sending { offset: 0, len }),
        ({
            let write = SocketWrite::Sending { offset, len };
            let taken = write.next(SocketEvent::Sent(Ok(n)));
            let failed = write.next(SocketEvent::Sent(Err(kind)));
            &&& offset + n >= len ==> taken == SocketWrite::Finished(Ok(()))
            &&& offset + n < len ==> taken == (SocketWrite::Sending {
                offset: (offset + n) as usize,
                len,
            })
            &&& kind == IoErrorKind::WouldBlock ==> failed == (SocketWrite::Pausing { offset, len })
            &&& kind == IoErrorKind::TimedOut ==> failed == SocketWrite::Finished(Err(()))
            &&& kind == IoErrorKind::Other ==> failed == SocketWrite::Finished(Err(()))
        }),
        (SocketWrite::Pausing { offset, len }).next(SocketEvent::Slept) == (SocketWrite::Sending {
            offset,
            len,
        }),
{
}

/// A write stays where it is until its step is answered, and for good once it
/// is done.
pub proof fn law_write_waits_for_its_answer(write: SocketWrite, event: SocketEvent)
    requires
        !(write is Sending && event is Sent),
        !(write is Pausing && event is Slept),
    ensures
        write.next(event) == write,
{
}

/// A socket that is not ready costs a pause and nothing else: the same bytes
/// are offered again.
pub proof fn law_not_ready_is_retried(offset: usize, len: usize)
    ensures
        (SocketWrite::Sending { offset, len }).next(
            SocketEvent::Sent(Err(IoErrorKind::WouldBlock)),
        ).next(SocketEvent::Slept) == (SocketWrite::Sending { offset, len }),
{
}

} // verus!
