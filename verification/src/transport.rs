//! Results of byte transports, as the session engine sees them.
//!
//! A transport read tells how many bytes arrived, or that the session is
//! over; a transport write tells that everything was sent, or that the session
//! is over. The transports carry no other error.

use vstd::prelude::*;

verus! {

/// Bytes that the engine and its transports move at a time. Small, so that
/// the engine's buffers fit a task's stack.
pub const TRANSFER_SIZE: usize = 64;

/// What became of a read under a deadline.
#[derive(Clone, Copy, PartialEq, Eq, Debug, Structural)]
pub enum TimedRead {
    /// The deadline passed first.
    TimedOut,
    /// This many bytes arrived.
    Read(usize),
    /// The device failed.
    Failed,
}

/// What became of a write under a deadline.
#[derive(Clone, Copy, PartialEq, Eq, Debug, Structural)]
pub enum TimedWrite {
    /// The deadline passed first.
    TimedOut,
    /// Everything was sent.
    Written,
    /// The device failed.
    Failed,
}

/// Why a socket operation failed, as far as a transport cares.
#[derive(Clone, Copy, PartialEq, Eq, Debug, Structural)]
pub enum IoErrorKind {
    /// Nothing could be done without blocking.
    WouldBlock,
    /// The socket's own timeout passed.
    TimedOut,
    /// Anything else.
    Other,
}

} // verus!
