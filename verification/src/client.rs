//! The flasher's side of the connection: a blocking TCP socket whose timeout
//! is borrowed for the length of one nonblocking call.

use crate::transport::IoErrorKind;
use vstd::prelude::*;

verus! {

/// The timeout that the socket has outside of a nonblocking call.
pub const EXPECT_TIMEOUT_MS: u64 = 5_000;

/// What became of one socket operation.
pub enum Attempt<T, E> {
    /// It was carried out.
    Done(T),
    /// It failed.
    Failed { kind: IoErrorKind, error: E },
}

/// Whether `kind` says that the socket was not ready in time.
pub open spec fn not_ready(kind: IoErrorKind) -> bool {
    kind == IoErrorKind::TimedOut || kind == IoErrorKind::WouldBlock
}

/// What a nonblocking read tells its caller.
pub open spec fn read_outcome<E>(attempt: Attempt<usize, E>) -> Result<usize, E> {
    match attempt {
        Attempt::Done(n) => Ok(n),
        Attempt::Failed { kind, error } => if not_ready(kind) {
            Ok(0)
        } else {
            Err(error)
        },
    }
}

/// What a nonblocking write tells its caller.
pub open spec fn write_outcome<E>(attempt: Attempt<(), E>) -> Result<bool, E> {
    match attempt {
        Attempt::Done(_) => Ok(true),
        Attempt::Failed { kind, error } => if not_ready(kind) {
            Ok(false)
        } else {
            Err(error)
        },
    }
}

/// What a nonblocking read tells its caller: the byte count, which is zero
/// where nothing arrived in time, or the error.
pub fn read_result<E>(attempt: Attempt<usize, E>) -> (result: Result<usize, E>)
    ensures
        result == read_outcome(attempt),
{
    match attempt {
        Attempt::Done(n) => Ok(n),
        Attempt::Failed { kind, error } => match kind {
            IoErrorKind::TimedOut => Ok(0),
            IoErrorKind::WouldBlock => Ok(0),
            IoErrorKind::Other => Err(error),
        },
    }
}

/// What a nonblocking write tells its caller: whether everything was sent in
/// time, or the error.
pub fn write_result<E>(attempt: Attempt<(), E>) -> (result: Result<bool, E>)
    ensures
        result == write_outcome(attempt),
{
    match attempt {
        Attempt::Done(_) => Ok(true),
        Attempt::Failed { kind, error } => match kind {
            IoErrorKind::TimedOut => Ok(false),
            IoErrorKind::WouldBlock => Ok(false),
            IoErrorKind::Other => Err(error),
        },
    }
}

/// A nonblocking call, between two steps.
pub enum NonblockingCall<T, E> {
    /// The socket's timeout is to be set to that of the call, in
    /// milliseconds.
    SetTimeout { timeout_ms: u64 },
    /// The data is to be moved.
    Transfer,
    /// The socket's timeout is to be set back to this many milliseconds.
    RestoreTimeout { timeout_ms: u64, result: Result<T, E> },
    /// The call is done.
    Return(Result<T, E>),
}

/// What came of a step of a nonblocking call.
pub enum CallEvent<T, E> {
    TimeoutSet(Result<(), E>),
    Transferred(Result<T, E>),
    TimeoutRestored(Result<(), E>),
}

impl<T, E> NonblockingCall<T, E> {
    /// The call after `event`. An event that does not answer the pending step
    /// changes nothing.
    pub open spec fn next(self, event: CallEvent<T, E>) -> NonblockingCall<T, E> {
        match (self, event) {
            (NonblockingCall::SetTimeout { .. }, CallEvent::TimeoutSet(Ok(_))) =>
                NonblockingCall::Transfer,
            (NonblockingCall::SetTimeout { .. }, CallEvent::TimeoutSet(Err(error))) =>
                NonblockingCall::Return(Err(error)),
            (NonblockingCall::Transfer, CallEvent::Transferred(result)) =>
                NonblockingCall::RestoreTimeout { timeout_ms: EXPECT_TIMEOUT_MS, result },
            (NonblockingCall::RestoreTimeout { result, .. }, CallEvent::TimeoutRestored(Ok(_))) =>
                NonblockingCall::Return(result),
            (NonblockingCall::RestoreTimeout { .. }, CallEvent::TimeoutRestored(Err(error))) =>
                NonblockingCall::Return(Err(error)),
            _ => self,
        }
    }

    /// The call after all of `events`.
    pub open spec fn run(self, events: Seq<CallEvent<T, E>>) -> NonblockingCall<T, E>
        decreases events.len(),
    {
        if events.len() == 0 {
            self
        } else {
            self.run(events.drop_last()).next(events.last())
        }
    }

    /// A call that is about to start, with a timeout of its own.
    pub fn new(timeout_ms: u32) -> (call: NonblockingCall<T, E>)
        ensures
            call == (NonblockingCall::<T, E>::SetTimeout { timeout_ms: timeout_ms as u64 }),
    {
        NonblockingCall::SetTimeout { timeout_ms: timeout_ms as u64 }
    }

    /// Takes one event.
    pub fn advance(self, event: CallEvent<T, E>) -> (call: NonblockingCall<T, E>)
        ensures
            call == self.next(event),
    {
        match (self, event) {
            (NonblockingCall::SetTimeout { .. }, CallEvent::TimeoutSet(Ok(_))) =>
                NonblockingCall::Transfer,
            (NonblockingCall::SetTimeout { .. }, CallEvent::TimeoutSet(Err(error))) =>
                NonblockingCall::Return(Err(error)),
            (NonblockingCall::Transfer, CallEvent::Transferred(result)) =>
                NonblockingCall::RestoreTimeout { timeout_ms: EXPECT_TIMEOUT_MS, result },
            (NonblockingCall::RestoreTimeout { result, .. }, CallEvent::TimeoutRestored(Ok(_))) =>
                NonblockingCall::Return(result),
            (NonblockingCall::RestoreTimeout { .. }, CallEvent::TimeoutRestored(Err(error))) =>
                NonblockingCall::Return(Err(error)),
            (call, _) => call,
        }
    }
}

/// Of the kinds of failure, a timeout and a socket that would block mean that
/// the socket was not ready, and no other does.
pub proof fn law_not_ready_kinds()
    ensures
        forall|kind: IoErrorKind| #[trigger]
            not_ready(kind) <==> kind == IoErrorKind::TimedOut || kind == IoErrorKind::WouldBlock,
{
}

/// A read that was carried out tells its count, one that was late tells zero,
/// and one that failed for another reason tells that failure's own error.
pub proof fn law_read_outcome<E>(n: usize, kind: IoErrorKind, error: E)
    ensures
        read_outcome(Attempt::<usize, E>::Done(n)) == Ok::<usize, E>(n),
        kind == IoErrorKind::TimedOut || kind == IoErrorKind::WouldBlock ==> read_outcome(
            Attempt::<usize, E>::Failed { kind, error },
        ) == Ok::<usize, E>(0),
        kind == IoErrorKind::Other ==> read_outcome(Attempt::<usize, E>::Failed { kind, error })
            == Err::<usize, E>(error),
{
}

/// A write that was carried out tells so, one that was late tells that it was
/// not, and one that failed for another reason tells that failure's own error.
pub proof fn law_write_outcome<E>(kind: IoErrorKind, error: E)
    ensures
        write_outcome(Attempt::<(), E>::Done(())) == Ok::<bool, E>(true),
        kind == IoErrorKind::TimedOut || kind == IoErrorKind::WouldBlock ==> write_outcome(
            Attempt::<(), E>::Failed { kind, error },
        ) == Ok::<bool, E>(false),
        kind == IoErrorKind::Other ==> write_outcome(Attempt::<(), E>::Failed { kind, error })
            == Err::<bool, E>(error),
{
}

/// How a call goes on: a timeout that was set leads to the transfer, and the
/// transfer, whatever it gave, to setting the timeout back to five seconds.
/// Then the call returns what the transfer gave. A timeout that could not be
/// set, or not be set back, makes it return that error.
pub proof fn law_call_steps<T, E>(timeout_ms: u64, moved: Result<T, E>, error: E)
    ensures
        (NonblockingCall::<T, E>::SetTimeout { timeout_ms }).next(CallEvent::TimeoutSet(Ok(())))
            == NonblockingCall::<T, E>::Transfer,
        (NonblockingCall::<T, E>::SetTimeout { timeout_ms }).next(CallEvent::TimeoutSet(Err(error)))
            == NonblockingCall::<T, E>::Return(Err(error)),
        NonblockingCall::<T, E>::Transfer.next(CallEvent::Transferred(moved)) == (
        NonblockingCall::<T, E>::RestoreTimeout { timeout_ms: 5_000, result: moved }),
        (NonblockingCall::<T, E>::RestoreTimeout { timeout_ms, result: moved }).next(
            CallEvent::TimeoutRestored(Ok(())),
        ) == NonblockingCall::<T, E>::Return(moved),
        (NonblockingCall::<T, E>::RestoreTimeout { timeout_ms, result: moved }).next(
            CallEvent::TimeoutRestored(Err(error)),
        ) == NonblockingCall::<T, E>::Return(Err(error)),
{
}

/// A call stays where it is until its step is answered, and for good once it
/// has returned.
pub proof fn law_call_waits_for_its_answer<T, E>(
    call: NonblockingCall<T, E>,
    event: CallEvent<T, E>,
)
    requires
        !(call is SetTimeout && event is TimeoutSet),
        !(call is Transfer && event is Transferred),
        !(call is RestoreTimeout && event is TimeoutRestored),
    ensures
        call.next(event) == call,
{
}

/// What a whole call returns: the error of setting the timeout, with nothing
/// moved; else the error of setting it back; else what the transfer gave.
pub proof fn law_call_result<T, E>(
    timeout_ms: u64,
    set: Result<(), E>,
    moved: Result<T, E>,
    restored: Result<(), E>,
)
    ensures
        (NonblockingCall::<T, E>::SetTimeout { timeout_ms }).next(CallEvent::TimeoutSet(set)).next(
            CallEvent::Transferred(moved),
        ).next(CallEvent::TimeoutRestored(restored)) == match set {
            Err(error) => NonblockingCall::<T, E>::Return(Err(error)),
            Ok(_) => match restored {
                Err(error) => NonblockingCall::Return(Err(error)),
                Ok(_) => NonblockingCall::Return(moved),
            },
        },
{
}

/// A call returns for one of two reasons: the timeout could not be set, so
/// that there is nothing to set back; or, after the transfer, it was set back
/// to the usual one, or at least tried. No other path out of a call exists.
pub proof fn law_timeout_is_restored<T, E>(timeout_ms: u64, events: Seq<CallEvent<T, E>>) -> (at:
    int)
    requires
        (NonblockingCall::<T, E>::SetTimeout { timeout_ms }).run(events) is Return,
    ensures
        0 <= at < events.len(),
        match (NonblockingCall::<T, E>::SetTimeout { timeout_ms }).run(events.take(at)) {
            NonblockingCall::SetTimeout { .. } => events[at] matches CallEvent::TimeoutSet(Err(_)),
            NonblockingCall::RestoreTimeout { timeout_ms: usual, .. } => {
                &&& usual == EXPECT_TIMEOUT_MS
                &&& events[at] is TimeoutRestored
            },
            _ => false,
        },
        (NonblockingCall::<T, E>::SetTimeout { timeout_ms }).run(events.take(at)).next(events[at])
            == (NonblockingCall::<T, E>::SetTimeout { timeout_ms }).run(events),
    decreases events.len(),
{
    let start = NonblockingCall::<T, E>::SetTimeout { timeout_ms };
    let before = events.drop_last();
    assert(events.len() > 0);
    assert(events.take(events.len() - 1) =~= before);
    if start.run(before) is Return {
        let at = law_timeout_is_restored(timeout_ms, before);
        assert(before.take(at) =~= events.take(at));
        at
    } else {
        lemma_restores_to_usual(timeout_ms, before);
        events.len() - 1
    }
}

proof fn lemma_restores_to_usual<T, E>(timeout_ms: u64, events: Seq<CallEvent<T, E>>)
    ensures
        (NonblockingCall::<T, E>::SetTimeout { timeout_ms }).run(events)
            matches NonblockingCall::RestoreTimeout { timeout_ms: usual, .. } ==> usual
            == EXPECT_TIMEOUT_MS,
    decreases events.len(),
{
    if events.len() > 0 {
        lemma_restores_to_usual(timeout_ms, events.drop_last());
    }
}

} // verus!
