//! Serprog over TCP, on WiFi.
//!
//! The server brings up the station interface, obtains an IPv4 address, then
//! serves one client at a time. The engine is shared with the USB task:
//! exactly one session runs at a time. Without WiFi credentials the firmware
//! is USB-only, and the server idles.

use crate::transport::{TimedRead, TimedWrite};
use vstd::prelude::*;

verus! {

/// The TCP port that clients connect to.
pub const LISTEN_PORT: u16 = 4000;

/// Bytes that the socket buffers on the way in.
pub const SOCKET_RX_SIZE: usize = 4096;

/// Bytes that the socket buffers on the way out.
pub const SOCKET_TX_SIZE: usize = 4096;

/// How long a read or a write may take before the session is over.
pub const IDLE_TIMEOUT_MS: u64 = 60_000;

/// Bytes of heap that the radio needs.
pub const HEAP_SIZE: usize = 73_728;

/// How long the server waits before it looks at the link or the address again.
pub const LINK_POLL_MS: u64 = 500;

/// How long the server waits before it accepts again after a failure.
pub const ACCEPT_RETRY_MS: u64 = 500;

/// How long the station waits before it connects again.
pub const RECONNECT_MS: u64 = 5_000;

/// The number that `bytes` spells, the least significant byte first.
pub open spec fn little_endian(bytes: Seq<u8>) -> int
    decreases bytes.len(),
{
    if bytes.len() == 0 {
        0
    } else {
        bytes[0] + 0x100 * little_endian(bytes.skip(1))
    }
}

/// The network stack's seed, out of eight bytes that a cryptographic random
/// number generator drew. The stack derives sequence numbers, ports and
/// transaction ids from it, so every bit of the draw counts.
pub fn network_seed(bytes: [u8; 8]) -> (seed: u64)
    ensures
        seed == little_endian(bytes@),
{
    let mut seed: u64 = 0;
    let mut i: usize = 8;
    assert(bytes@.skip(8) =~= Seq::<u8>::empty());
    while i > 0
        invariant
            i <= 8,
            seed == little_endian(bytes@.skip(i as int)),
            i == 8 ==> seed == 0,
            i == 7 ==> seed < 0x100,
            i == 6 ==> seed < 0x1_0000,
            i == 5 ==> seed < 0x100_0000,
            i == 4 ==> seed < 0x1_0000_0000,
            i == 3 ==> seed < 0x100_0000_0000,
            i == 2 ==> seed < 0x1_0000_0000_0000,
            i == 1 ==> seed < 0x100_0000_0000_0000,
        decreases i,
    {
        i = i - 1;
        assert(bytes@.skip(i as int).skip(1) =~= bytes@.skip(i + 1));
        seed = bytes[i] as u64 + 0x100 * seed;
    }
    assert(bytes@.skip(0) =~= bytes@);
    seed
}

/// Whether WiFi is to be brought up at all: only with a network name and a
/// password.
pub fn has_credentials(ssid: &str, password: &str) -> (yes: bool)
    ensures
        yes == (ssid@.len() > 0 && password@.len() > 0),
{
    !ssid.is_empty() && !password.is_empty()
}

/// What a TCP read tells the engine.
pub open spec fn tcp_read_result(outcome: TimedRead) -> Result<usize, ()> {
    match outcome {
        TimedRead::Read(n) => if n > 0 {
            Ok(n)
        } else {
            Err(())
        },
        TimedRead::TimedOut => Err(()),
        TimedRead::Failed => Err(()),
    }
}

/// What a TCP write tells the engine.
pub open spec fn tcp_write_result(outcome: TimedWrite) -> Result<(), ()> {
    match outcome {
        TimedWrite::Written => Ok(()),
        TimedWrite::TimedOut => Err(()),
        TimedWrite::Failed => Err(()),
    }
}

/// What a TCP read tells the engine. A stream that delivers no byte has been
/// closed by the client, and a client that goes silent loses the session.
pub fn tcp_read(outcome: TimedRead) -> (result: Result<usize, ()>)
    ensures
        result == tcp_read_result(outcome),
{
    match outcome {
        TimedRead::TimedOut => Err(()),
        TimedRead::Read(n) => if n == 0 {
            Err(())
        } else {
            Ok(n)
        },
        TimedRead::Failed => Err(()),
    }
}

/// What a TCP write tells the engine. A peer that stops reading loses the
/// session.
pub fn tcp_write(outcome: TimedWrite) -> (result: Result<(), ()>)
    ensures
        result == tcp_write_result(outcome),
{
    match outcome {
        TimedWrite::TimedOut => Err(()),
        TimedWrite::Written => Ok(()),
        TimedWrite::Failed => Err(()),
    }
}

/// The TCP server, between two steps.
#[derive(Clone, Copy, PartialEq, Eq, Debug, Structural)]
pub enum Server {
    /// No credentials: there is nothing to do, ever.
    UsbOnly,
    /// The radio and the network stack are to be brought up.
    BringUp,
    /// Is the link up?
    CheckLink,
    /// It was not; waiting to look again.
    LinkPause,
    /// Has an address been assigned?
    CheckAddress,
    /// It has not; waiting to look again.
    AddressPause,
    /// A socket is to be opened for the next session.
    OpenSocket,
    /// Waiting for a client.
    Accepting,
    /// Accepting failed; waiting to try again.
    AcceptPause,
    /// A client has connected, and waits for the engine.
    Locking,
    /// The session runs.
    Session,
    /// The session is over, and the engine is to be given back.
    Releasing,
    /// The connection is to be aborted, and the abort sent.
    Aborting,
}

/// What the server has to do next.
#[derive(Clone, Copy, PartialEq, Eq, Debug, Structural)]
pub enum ServerAction {
    /// Nothing, forever.
    Idle,
    /// Register the heap, draw the seed, start the radio and the network
    /// stack and the tasks that drive them.
    BringUp,
    /// See whether the link is up.
    CheckLink,
    /// See whether an address has been assigned.
    CheckAddress,
    /// Wait this many milliseconds.
    Sleep { ms: u64 },
    /// Open a fresh socket.
    OpenSocket,
    /// Wait for a client on this port.
    Accept { port: u16 },
    /// Wait for the engine.
    LockEngine,
    /// Run the engine on the connection.
    RunSession,
    /// Give the engine back.
    ReleaseEngine,
    /// Abort the connection and flush the abort out.
    AbortSocket,
}

/// What came of a [`ServerAction`].
#[derive(Clone, Copy, PartialEq, Eq, Debug, Structural)]
pub enum ServerEvent {
    BroughtUp,
    Link { up: bool },
    Address { assigned: bool },
    Slept,
    SocketOpened,
    Accepted { ok: bool },
    EngineLocked,
    SessionEnded,
    EngineReleased,
    SocketAborted,
}

impl Server {
    /// What the server has to do next.
    pub open spec fn pending_action(self) -> ServerAction {
        match self {
            Server::UsbOnly => ServerAction::Idle,
            Server::BringUp => ServerAction::BringUp,
            Server::CheckLink => ServerAction::CheckLink,
            Server::LinkPause => ServerAction::Sleep { ms: LINK_POLL_MS },
            Server::CheckAddress => ServerAction::CheckAddress,
            Server::AddressPause => ServerAction::Sleep { ms: LINK_POLL_MS },
            Server::OpenSocket => ServerAction::OpenSocket,
            Server::Accepting => ServerAction::Accept { port: LISTEN_PORT },
            Server::AcceptPause => ServerAction::Sleep { ms: ACCEPT_RETRY_MS },
            Server::Locking => ServerAction::LockEngine,
            Server::Session => ServerAction::RunSession,
            Server::Releasing => ServerAction::ReleaseEngine,
            Server::Aborting => ServerAction::AbortSocket,
        }
    }

    /// The server after `event`. An event that does not answer the pending
    /// action changes nothing.
    pub open spec fn next(self, event: ServerEvent) -> Server {
        match (self, event) {
            (Server::BringUp, ServerEvent::BroughtUp) => Server::CheckLink,
            (Server::CheckLink, ServerEvent::Link { up }) => if up {
                Server::CheckAddress
            } else {
                Server::LinkPause
            },
            (Server::LinkPause, ServerEvent::Slept) => Server::CheckLink,
            (Server::CheckAddress, ServerEvent::Address { assigned }) => if assigned {
                Server::OpenSocket
            } else {
                Server::AddressPause
            },
            (Server::AddressPause, ServerEvent::Slept) => Server::CheckAddress,
            (Server::OpenSocket, ServerEvent::SocketOpened) => Server::Accepting,
            (Server::Accepting, ServerEvent::Accepted { ok }) => if ok {
                Server::Locking
            } else {
                Server::AcceptPause
            },
            (Server::AcceptPause, ServerEvent::Slept) => Server::Accepting,
            (Server::Locking, ServerEvent::EngineLocked) => Server::Session,
            (Server::Session, ServerEvent::SessionEnded) => Server::Releasing,
            (Server::Releasing, ServerEvent::EngineReleased) => Server::Aborting,
            (Server::Aborting, ServerEvent::SocketAborted) => Server::OpenSocket,
            _ => self,
        }
    }

    /// The server after all of `events`.
    pub open spec fn run(self, events: Seq<ServerEvent>) -> Server
        decreases events.len(),
    {
        if events.len() == 0 {
            self
        } else {
            self.run(events.drop_last()).next(events.last())
        }
    }

    /// Whether the server has the engine.
    pub open spec fn holds_engine(self) -> bool {
        self is Session || self is Releasing
    }

    /// Whether the server has come to serving clients.
    pub open spec fn serves(self) -> bool {
        match self {
            Server::OpenSocket => true,
            Server::Accepting => true,
            Server::AcceptPause => true,
            Server::Locking => true,
            Server::Session => true,
            Server::Releasing => true,
            Server::Aborting => true,
            _ => false,
        }
    }

    /// The server at start-up.
    pub open spec fn start(ssid: Seq<char>, password: Seq<char>) -> Server {
        if ssid.len() > 0 && password.len() > 0 {
            Server::BringUp
        } else {
            Server::UsbOnly
        }
    }

    /// The server at start-up, with the credentials baked in at build time.
    pub fn new(ssid: &str, password: &str) -> (server: Server)
        ensures
            server == Server::start(ssid@, password@),
    {
        if has_credentials(ssid, password) {
            Server::BringUp
        } else {
            Server::UsbOnly
        }
    }

    /// What the server has to do next.
    pub fn action(self) -> (action: ServerAction)
        ensures
            action == self.pending_action(),
    {
        match self {
            Server::UsbOnly => ServerAction::Idle,
            Server::BringUp => ServerAction::BringUp,
            Server::CheckLink => ServerAction::CheckLink,
            Server::LinkPause => ServerAction::Sleep { ms: LINK_POLL_MS },
            Server::CheckAddress => ServerAction::CheckAddress,
            Server::AddressPause => ServerAction::Sleep { ms: LINK_POLL_MS },
            Server::OpenSocket => ServerAction::OpenSocket,
            Server::Accepting => ServerAction::Accept { port: LISTEN_PORT },
            Server::AcceptPause => ServerAction::Sleep { ms: ACCEPT_RETRY_MS },
            Server::Locking => ServerAction::LockEngine,
            Server::Session => ServerAction::RunSession,
            Server::Releasing => ServerAction::ReleaseEngine,
            Server::Aborting => ServerAction::AbortSocket,
        }
    }

    /// Takes one event.
    pub fn advance(&mut self, event: ServerEvent)
        ensures
            *final(self) == old(self).next(event),
    {
        let next: Server = match (*self, event) {
            (Server::BringUp, ServerEvent::BroughtUp) => Server::CheckLink,
            (Server::CheckLink, ServerEvent::Link { up: true }) => Server::CheckAddress,
            (Server::CheckLink, ServerEvent::Link { up: false }) => Server::LinkPause,
            (Server::LinkPause, ServerEvent::Slept) => Server::CheckLink,
            (Server::CheckAddress, ServerEvent::Address { assigned: true }) => Server::OpenSocket,
            (Server::CheckAddress, ServerEvent::Address { assigned: false }) =>
                Server::AddressPause,
            (Server::AddressPause, ServerEvent::Slept) => Server::CheckAddress,
            (Server::OpenSocket, ServerEvent::SocketOpened) => Server::Accepting,
            (Server::Accepting, ServerEvent::Accepted { ok: true }) => Server::Locking,
            (Server::Accepting, ServerEvent::Accepted { ok: false }) => Server::AcceptPause,
            (Server::AcceptPause, ServerEvent::Slept) => Server::Accepting,
            (Server::Locking, ServerEvent::EngineLocked) => Server::Session,
            (Server::Session, ServerEvent::SessionEnded) => Server::Releasing,
            (Server::Releasing, ServerEvent::EngineReleased) => Server::Aborting,
            (Server::Aborting, ServerEvent::SocketAborted) => Server::OpenSocket,
            (state, _) => state,
        };
        *self = next;
    }
}

/// The station's connection to its access point, between two steps.
#[derive(Clone, Copy, PartialEq, Eq, Debug, Structural)]
pub enum Connection {
    /// The station is to be configured.
    Configuring,
    /// Is the station connected?
    Checking,
    /// It is not, and connects.
    Connecting,
    /// It is, and waits until the access point drops it.
    Connected,
    /// Connecting failed or the connection was lost; waiting to check again.
    Pause,
}

/// What the connection task has to do next.
#[derive(Clone, Copy, PartialEq, Eq, Debug, Structural)]
pub enum ConnectionAction {
    /// Hand the credentials to the radio.
    Configure,
    /// See whether the station is connected.
    Check,
    /// Connect.
    Connect,
    /// Wait for the connection to be lost.
    AwaitDisconnect,
    /// Wait this many milliseconds.
    Sleep { ms: u64 },
}

/// What came of a [`ConnectionAction`].
#[derive(Clone, Copy, PartialEq, Eq, Debug, Structural)]
pub enum ConnectionEvent {
    Configured,
    Checked { connected: bool },
    ConnectDone { ok: bool },
    Disconnected,
    Slept,
}

impl Connection {
    /// What the task has to do next.
    pub open spec fn pending_action(self) -> ConnectionAction {
        match self {
            Connection::Configuring => ConnectionAction::Configure,
            Connection::Checking => ConnectionAction::Check,
            Connection::Connecting => ConnectionAction::Connect,
            Connection::Connected => ConnectionAction::AwaitDisconnect,
            Connection::Pause => ConnectionAction::Sleep { ms: RECONNECT_MS },
        }
    }

    /// The task after `event`. An event that does not answer the pending
    /// action changes nothing.
    pub open spec fn next(self, event: ConnectionEvent) -> Connection {
        match (self, event) {
            (Connection::Configuring, ConnectionEvent::Configured) => Connection::Checking,
            (Connection::Checking, ConnectionEvent::Checked { connected }) => if connected {
                Connection::Connected
            } else {
                Connection::Connecting
            },
            (Connection::Connecting, ConnectionEvent::ConnectDone { ok }) => if ok {
                Connection::Checking
            } else {
                Connection::Pause
            },
            (Connection::Connected, ConnectionEvent::Disconnected) => Connection::Pause,
            (Connection::Pause, ConnectionEvent::Slept) => Connection::Checking,
            _ => self,
        }
    }

    /// The task after all of `events`.
    pub open spec fn run(self, events: Seq<ConnectionEvent>) -> Connection
        decreases events.len(),
    {
        if events.len() == 0 {
            self
        } else {
            self.run(events.drop_last()).next(events.last())
        }
    }

    /// The task at start-up.
    pub fn new() -> (connection: Connection)
        ensures
            connection == Connection::Configuring,
    {
        Connection::Configuring
    }

    /// What the task has to do next.
    pub fn action(self) -> (action: ConnectionAction)
        ensures
            action == self.pending_action(),
    {
        match self {
            Connection::Configuring => ConnectionAction::Configure,
            Connection::Checking => ConnectionAction::Check,
            Connection::Connecting => ConnectionAction::Connect,
            Connection::Connected => ConnectionAction::AwaitDisconnect,
            Connection::Pause => ConnectionAction::Sleep { ms: RECONNECT_MS },
        }
    }

    /// Takes one event.
    pub fn advance(&mut self, event: ConnectionEvent)
        ensures
            *final(self) == old(self).next(event),
    {
        let next: Connection = match (*self, event) {
            (Connection::Configuring, ConnectionEvent::Configured) => Connection::Checking,
            (Connection::Checking, ConnectionEvent::Checked { connected: true }) =>
                Connection::Connected,
            (Connection::Checking, ConnectionEvent::Checked { connected: false }) =>
                Connection::Connecting,
            (Connection::Connecting, ConnectionEvent::ConnectDone { ok: true }) =>
                Connection::Checking,
            (Connection::Connecting, ConnectionEvent::ConnectDone { ok: false }) =>
                Connection::Pause,
            (Connection::Connected, ConnectionEvent::Disconnected) => Connection::Pause,
            (Connection::Pause, ConnectionEvent::Slept) => Connection::Checking,
            (state, _) => state,
        };
        *self = next;
    }
}

} // verus!
