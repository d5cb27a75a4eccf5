//! Serprog over USB Serial/JTAG.
//!
//! USB Serial/JTAG gives no connect or disconnect signal, so a session is
//! defined as: the first command byte starts it, and a gap of
//! [`USB_IDLE_TIMEOUT_MS`] without host data ends it. While a session runs,
//! the USB device and the engine are held exclusively; between sessions the
//! engine is released and the TCP server can take over.

use crate::transport::TimedRead;
use vstd::prelude::*;

verus! {

/// How long a session outlives the last host data.
pub const USB_IDLE_TIMEOUT_MS: u64 = 10_000;

/// How long one poll for the first byte of a session lasts.
pub const USB_POLL_MS: u64 = 10;

/// How a read of a session goes on.
#[derive(Clone, Copy, PartialEq, Eq, Debug, Structural)]
pub enum UsbRead {
    /// It is done: this many bytes are in the buffer.
    Served(usize),
    /// The device has to be read, for at most this many milliseconds.
    Device { timeout_ms: u64 },
}

/// The state of one session's transport.
pub struct UsbSerialJtagTransport {
    /// The first command byte, already read while waiting for the session.
    pending: Option<u8>,
}

impl View for UsbSerialJtagTransport {
    type V = Option<u8>;

    closed spec fn view(&self) -> Option<u8> {
        self.pending
    }
}

/// What a read does with `pending`, the byte put aside, and `buf`: how it goes
/// on, what is then put aside, and what the buffer then holds.
pub open spec fn read_step(pending: Option<u8>, buf: Seq<u8>) -> (UsbRead, Option<u8>, Seq<u8>) {
    match pending {
        Some(byte) => (UsbRead::Served(1), None, buf.update(0, byte)),
        None => (UsbRead::Device { timeout_ms: USB_IDLE_TIMEOUT_MS }, None, buf),
    }
}

/// What a read of the device tells the engine.
pub open spec fn device_result(outcome: TimedRead) -> Result<usize, ()> {
    match outcome {
        TimedRead::Read(n) => Ok(n),
        TimedRead::TimedOut => Err(()),
        TimedRead::Failed => Err(()),
    }
}

/// A read of the device: what became of it, and what the buffer then holds.
pub struct DeviceRead {
    pub outcome: TimedRead,
    pub buf: Seq<u8>,
}

/// What a session hands to the engine, where `pending` is the byte put aside,
/// `bufs` are the buffers that the engine reads into, one after the other, and
/// `reads` are the reads of the device. The first error ends the session.
pub open spec fn delivered(
    pending: Option<u8>,
    bufs: Seq<Seq<u8>>,
    reads: Seq<DeviceRead>,
) -> Seq<u8>
    decreases bufs.len(),
{
    if bufs.len() == 0 {
        Seq::empty()
    } else {
        let (step, left, buf) = read_step(pending, bufs[0]);
        match step {
            UsbRead::Served(n) => buf.take(n as int) + delivered(left, bufs.skip(1), reads),
            UsbRead::Device { .. } => match device_result(reads[0].outcome) {
                Ok(n) => reads[0].buf.take(n as int) + delivered(left, bufs.skip(1), reads.skip(1)),
                Err(_) => Seq::empty(),
            },
        }
    }
}

/// The bytes that the device puts into the buffers of `reads`, up to the first
/// read that times out or fails.
pub open spec fn arrived(reads: Seq<DeviceRead>) -> Seq<u8>
    decreases reads.len(),
{
    if reads.len() == 0 {
        Seq::empty()
    } else {
        match reads[0].outcome {
            TimedRead::Read(n) => reads[0].buf.take(n as int) + arrived(reads.skip(1)),
            _ => Seq::empty(),
        }
    }
}

impl UsbSerialJtagTransport {
    /// The transport of a session that `first` has started.
    pub fn begin(first: u8) -> (transport: UsbSerialJtagTransport)
        ensures
            transport@ == Some(first),
    {
        UsbSerialJtagTransport { pending: Some(first) }
    }

    /// Whether the byte that started the session is still to be served.
    pub fn has_pending(&self) -> (yes: bool)
        ensures
            yes == self@ is Some,
    {
        match self.pending {
            Some(_) => true,
            None => false,
        }
    }

    /// Serves the byte that started the session, once. After that the device
    /// has to be read.
    pub fn read(&mut self, buf: &mut [u8]) -> (step: UsbRead)
        requires
            old(self)@ is Some ==> old(buf)@.len() > 0,
        ensures
            (step, final(self)@, final(buf)@) == read_step(old(self)@, old(buf)@),
    {
        match self.pending {
            Some(byte) => {
                self.pending = None;
                buf[0] = byte;
                UsbRead::Served(1)
            },
            None => UsbRead::Device { timeout_ms: USB_IDLE_TIMEOUT_MS },
        }
    }

    /// What a read of the device tells the engine: the byte count as it is,
    /// zero included, or the end of the session.
    pub fn device_read(outcome: TimedRead) -> (result: Result<usize, ()>)
        ensures
            result == device_result(outcome),
    {
        match outcome {
            TimedRead::Read(n) => Ok(n),
            TimedRead::TimedOut => Err(()),
            TimedRead::Failed => Err(()),
        }
    }
}

/// A read serves the byte put aside: one byte, in the first place of the
/// buffer, the rest of which stays as it is. With nothing put aside the device
/// is read for at most ten seconds, into a buffer that is as it was. Either
/// way nothing is put aside any more.
pub proof fn law_read_serves_the_byte_once(byte: u8, buf: Seq<u8>)
    ensures
        read_step(None, buf).0 == (UsbRead::Device { timeout_ms: 10_000 }),
        read_step(None, buf).1 is None,
        read_step(None, buf).2 == buf,
        buf.len() > 0 ==> {
            &&& read_step(Some(byte), buf).0 == UsbRead::Served(1)
            &&& read_step(Some(byte), buf).1 is None
            &&& read_step(Some(byte), buf).2.len() == buf.len()
            &&& read_step(Some(byte), buf).2[0] == byte
            &&& forall|i: int|
                1 <= i < buf.len() ==> #[trigger] read_step(Some(byte), buf).2[i] == buf[i]
        },
{
}

/// A session goes on exactly as long as the device delivers, with the count
/// that it delivers, be it zero.
pub proof fn law_device_count_is_passed_on(outcome: TimedRead, n: usize)
    ensures
        device_result(outcome) == Ok::<usize, ()>(n) <==> outcome == TimedRead::Read(n),
        device_result(outcome) is Err <==> outcome == TimedRead::TimedOut || outcome
            == TimedRead::Failed,
{
}

/// No byte of a session is lost, doubled or moved: the engine gets the byte
/// that started the session, then what the device delivers, in order, until
/// the device is silent for too long or fails.
pub proof fn law_no_byte_lost(first: u8, bufs: Seq<Seq<u8>>, reads: Seq<DeviceRead>)
    requires
        bufs.len() == reads.len() + 1,
        bufs[0].len() > 0,
    ensures
        delivered(Some(first), bufs, reads) == seq![first] + arrived(reads),
{
    lemma_device_bytes(bufs.skip(1), reads);
    assert(bufs[0].update(0, first).take(1) =~= seq![first]);
}

proof fn lemma_device_bytes(bufs: Seq<Seq<u8>>, reads: Seq<DeviceRead>)
    requires
        bufs.len() == reads.len(),
    ensures
        delivered(None, bufs, reads) == arrived(reads),
    decreases reads.len(),
{
    if reads.len() > 0 {
        lemma_device_bytes(bufs.skip(1), reads.skip(1));
    }
}

/// What one poll for the first byte of a session found.
#[derive(Clone, Copy, PartialEq, Eq, Debug, Structural)]
pub enum UsbPoll {
    /// Nothing arrived in time.
    TimedOut,
    /// A read into a one-byte buffer ended with this count, and left this in
    /// the buffer.
    Read { count: usize, byte: u8 },
    /// The device failed.
    Failed,
}

/// The USB task, between two steps.
#[derive(Clone, Copy, PartialEq, Eq, Debug, Structural)]
pub enum UsbTask {
    /// Polling for the first byte of a session.
    Waiting,
    /// A session has started, and waits for the engine.
    Locking { first: u8 },
    /// The session runs.
    Session { first: u8 },
    /// The session is over, and the engine is to be given back.
    Releasing,
}

/// What the USB task has to do next.
#[derive(Clone, Copy, PartialEq, Eq, Debug, Structural)]
pub enum UsbAction {
    /// Read one byte, for at most this many milliseconds.
    Poll { timeout_ms: u64 },
    /// Wait for the engine.
    LockEngine,
    /// Run the engine on a transport that begins with this byte.
    RunSession { first: u8 },
    /// Give the engine back.
    ReleaseEngine,
}

/// What came of a [`UsbAction`].
#[derive(Clone, Copy, PartialEq, Eq, Debug, Structural)]
pub enum UsbEvent {
    Polled(UsbPoll),
    EngineLocked,
    SessionEnded,
    EngineReleased,
}

impl UsbTask {
    /// What the task has to do next.
    pub open spec fn pending_action(self) -> UsbAction {
        match self {
            UsbTask::Waiting => UsbAction::Poll { timeout_ms: USB_POLL_MS },
            UsbTask::Locking { .. } => UsbAction::LockEngine,
            UsbTask::Session { first } => UsbAction::RunSession { first },
            UsbTask::Releasing => UsbAction::ReleaseEngine,
        }
    }

    /// The task after `event`. An event that does not answer the pending
    /// action changes nothing.
    pub open spec fn next(self, event: UsbEvent) -> UsbTask {
        match (self, event) {
            (UsbTask::Waiting, UsbEvent::Polled(UsbPoll::Read { count: 1, byte })) =>
                UsbTask::Locking { first: byte },
            (UsbTask::Locking { first }, UsbEvent::EngineLocked) => UsbTask::Session { first },
            (UsbTask::Session { .. }, UsbEvent::SessionEnded) => UsbTask::Releasing,
            (UsbTask::Releasing, UsbEvent::EngineReleased) => UsbTask::Waiting,
            _ => self,
        }
    }

    /// The task after all of `events`.
    pub open spec fn run(self, events: Seq<UsbEvent>) -> UsbTask
        decreases events.len(),
    {
        if events.len() == 0 {
            self
        } else {
            self.run(events.drop_last()).next(events.last())
        }
    }

    /// Whether the task has the engine.
    pub open spec fn holds_engine(self) -> bool {
        self is Session || self is Releasing
    }

    /// A task that waits for its first session.
    pub fn new() -> (task: UsbTask)
        ensures
            task == UsbTask::Waiting,
    {
        UsbTask::Waiting
    }

    /// What the task has to do next.
    pub fn action(self) -> (action: UsbAction)
        ensures
            action == self.pending_action(),
    {
        match self {
            UsbTask::Waiting => UsbAction::Poll { timeout_ms: USB_POLL_MS },
            UsbTask::Locking { .. } => UsbAction::LockEngine,
            UsbTask::Session { first } => UsbAction::RunSession { first },
            UsbTask::Releasing => UsbAction::ReleaseEngine,
        }
    }

    /// Takes one event.
    pub fn advance(&mut self, event: UsbEvent)
        ensures
            *final(self) == old(self).next(event),
    {
        match (*self, event) {
            (UsbTask::Waiting, UsbEvent::Polled(UsbPoll::Read { count, byte })) => {
                if count == 1 {
                    *self = UsbTask::Locking { first: byte };
                }
            },
            (UsbTask::Locking { first }, UsbEvent::EngineLocked) => {
                *self = UsbTask::Session { first };
            },
            (UsbTask::Session { .. }, UsbEvent::SessionEnded) => {
                *self = UsbTask::Releasing;
            },
            (UsbTask::Releasing, UsbEvent::EngineReleased) => {
                *self = UsbTask::Waiting;
            },
            _ => {},
        }
    }
}

/// From a poll that finds `byte` on: the engine is waited for, the session is
/// run on that very byte, the engine is given back, and polls of ten
/// milliseconds go on. It starts with such polls.
pub proof fn law_session_runs_on_the_polled_byte(task: UsbTask, byte: u8)
    requires
        task.pending_action() is Poll,
    ensures
        UsbTask::Waiting.pending_action() == (UsbAction::Poll { timeout_ms: 10 }),
        ({
            let found = task.next(UsbEvent::Polled(UsbPoll::Read { count: 1, byte }));
            let granted = found.next(UsbEvent::EngineLocked);
            let ended = granted.next(UsbEvent::SessionEnded);
            let released = ended.next(UsbEvent::EngineReleased);
            &&& task.pending_action() == (UsbAction::Poll { timeout_ms: 10 })
            &&& found.pending_action() == UsbAction::LockEngine
            &&& granted.pending_action() == (UsbAction::RunSession { first: byte })
            &&& ended.pending_action() == UsbAction::ReleaseEngine
            &&& released.pending_action() == (UsbAction::Poll { timeout_ms: 10 })
        }),
{
}

/// The first byte that the engine gets is the one that the poll found.
pub proof fn law_engine_gets_the_polled_byte_first(
    byte: u8,
    bufs: Seq<Seq<u8>>,
    reads: Seq<DeviceRead>,
)
    requires
        bufs.len() == reads.len() + 1,
        bufs[0].len() > 0,
    ensures
        UsbTask::Waiting.next(UsbEvent::Polled(UsbPoll::Read { count: 1, byte })).next(
            UsbEvent::EngineLocked,
        ).pending_action() matches UsbAction::RunSession { first } && delivered(
            Some(first),
            bufs,
            reads,
        ).len() > 0 && delivered(Some(first), bufs, reads)[0] == byte,
{
    law_session_runs_on_the_polled_byte(UsbTask::Waiting, byte);
    law_no_byte_lost(byte, bufs, reads);
}

/// The task stays where it is until its action is answered. A poll that times
/// out, fails, or ends with any other count than one is no answer.
pub proof fn law_task_waits_for_its_answer(task: UsbTask, event: UsbEvent)
    requires
        !(task.pending_action() is Poll && event matches UsbEvent::Polled(
            UsbPoll::Read { count: 1, .. },
        )),
        !(task.pending_action() is LockEngine && event is EngineLocked),
        !(task.pending_action() is RunSession && event is SessionEnded),
        !(task.pending_action() is ReleaseEngine && event is EngineReleased),
    ensures
        task.next(event) == task,
{
}

/// The task gains the engine exactly when the mutex grants it, loses it exactly
/// when it gives it back, and runs a session only while it has it.
pub proof fn law_engine_is_held_by_the_lock(task: UsbTask, event: UsbEvent)
    ensures
        !task.holds_engine() && task.next(event).holds_engine() <==> task is Locking
            && event is EngineLocked,
        task.holds_engine() && !task.next(event).holds_engine() <==> task is Releasing
            && event is EngineReleased,
        task.pending_action() is RunSession ==> task.holds_engine(),
        task.pending_action() is ReleaseEngine ==> task.holds_engine(),
        task.pending_action() is LockEngine ==> !task.holds_engine(),
{
}

/// Whether `event` brings the first byte of a session.
pub open spec fn brings_first_byte(event: UsbEvent) -> bool {
    event matches UsbEvent::Polled(UsbPoll::Read { count: 1, .. })
}

/// While no poll finds a byte, the task polls on and does not have the engine.
pub proof fn law_engine_free_while_no_host(events: Seq<UsbEvent>)
    requires
        forall|i: int| 0 <= i < events.len() ==> !#[trigger] brings_first_byte(events[i]),
    ensures
        UsbTask::Waiting.run(events) == UsbTask::Waiting,
        !UsbTask::Waiting.run(events).holds_engine(),
    decreases events.len(),
{
    if events.len() > 0 {
        let before = events.drop_last();
        assert forall|i: int| 0 <= i < before.len() implies !#[trigger] brings_first_byte(
            before[i],
        ) by {
            assert(before[i] == events[i]);
        }
        law_engine_free_while_no_host(before);
        assert(!brings_first_byte(events[events.len() - 1]));
    }
}

/// A session runs on the byte that a poll found, and on no other: the byte of
/// the last poll that found one while the task was waiting.
pub proof fn law_session_begins_with_polled_byte(events: Seq<UsbEvent>, first: u8) -> (at: int)
    requires
        UsbTask::Waiting.run(events) == (UsbTask::Session { first }),
    ensures
        0 <= at < events.len(),
        UsbTask::Waiting.run(events.take(at)) == UsbTask::Waiting,
        events[at] == UsbEvent::Polled(UsbPoll::Read { count: 1, byte: first }),
        forall|i: int|
            at < i <= events.len() ==> #[trigger] UsbTask::Waiting.run(events.take(i))
                != UsbTask::Waiting,
{
    lemma_polled_byte(events, first)
}

/// The same of a session that still waits for the engine.
proof fn lemma_polled_byte(events: Seq<UsbEvent>, first: u8) -> (at: int)
    requires
        UsbTask::Waiting.run(events) == (UsbTask::Session { first }) || UsbTask::Waiting.run(events)
            == (UsbTask::Locking { first }),
    ensures
        0 <= at < events.len(),
        UsbTask::Waiting.run(events.take(at)) == UsbTask::Waiting,
        events[at] == UsbEvent::Polled(UsbPoll::Read { count: 1, byte: first }),
        forall|i: int|
            at < i <= events.len() ==> #[trigger] UsbTask::Waiting.run(events.take(i))
                != UsbTask::Waiting,
    decreases events.len(),
{
    assert(events.len() > 0);
    let before = events.drop_last();
    assert(events.take(events.len() as int) =~= events);
    assert(events.take(events.len() - 1) =~= before);
    if UsbTask::Waiting.run(before) == UsbTask::Waiting {
        events.len() - 1
    } else {
        let at = lemma_polled_byte(before, first);
        assert(events.take(at) =~= before.take(at));
        assert forall|i: int| at < i <= events.len() implies #[trigger] UsbTask::Waiting.run(
            events.take(i),
        ) != UsbTask::Waiting by {
            if i < events.len() {
                assert(events.take(i) =~= before.take(i));
            }
        }
        at
    }
}

/// The task serves one session after another: a poll that finds a byte, the
/// engine, the session, and its end bring it back to where it waits.
pub proof fn law_sessions_repeat(byte: u8)
    ensures
        UsbTask::Waiting.next(UsbEvent::Polled(UsbPoll::Read { count: 1, byte })).next(
            UsbEvent::EngineLocked,
        ).next(UsbEvent::SessionEnded).next(UsbEvent::EngineReleased) == UsbTask::Waiting,
{
}

} // verus!
