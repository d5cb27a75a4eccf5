//! What holds of every run of the TCP server and of the connection task.

use crate::transport::{TimedRead, TimedWrite};
use crate::wifi::{
    little_endian, tcp_read_result, tcp_write_result, Connection, ConnectionAction, ConnectionEvent,
    Server, ServerAction, ServerEvent, ACCEPT_RETRY_MS, LINK_POLL_MS, RECONNECT_MS,
};
use vstd::prelude::*;

verus! {

/// Different draws of the same length give different seeds: no bit of the
/// draw is lost.
pub proof fn law_seed_keeps_the_draw(a: Seq<u8>, b: Seq<u8>)
    requires
        a.len() == b.len(),
        little_endian(a) == little_endian(b),
    ensures
        a == b,
    decreases a.len(),
{
    if a.len() > 0 {
        law_seed_keeps_the_draw(a.skip(1), b.skip(1));
        assert(a =~= seq![a[0]] + a.skip(1));
        assert(b =~= seq![b[0]] + b.skip(1));
    } else {
        assert(a =~= b);
    }
}

/// The bytes of the seed, the least significant first, are the bytes drawn.
pub proof fn law_seed_bytes_are_the_draw(draw: Seq<u8>)
    requires
        draw.len() == 8,
    ensures
        0 <= little_endian(draw) <= u64::MAX,
        little_endian(draw) % 0x100 == draw[0],
        little_endian(draw) / 0x100 % 0x100 == draw[1],
        little_endian(draw) / 0x1_0000 % 0x100 == draw[2],
        little_endian(draw) / 0x100_0000 % 0x100 == draw[3],
        little_endian(draw) / 0x1_0000_0000 % 0x100 == draw[4],
        little_endian(draw) / 0x100_0000_0000 % 0x100 == draw[5],
        little_endian(draw) / 0x1_0000_0000_0000 % 0x100 == draw[6],
        little_endian(draw) / 0x100_0000_0000_0000 == draw[7],
{
    let (b0, b1, b2, b3) = (draw[0] as int, draw[1] as int, draw[2] as int, draw[3] as int);
    let (b4, b5, b6, b7) = (draw[4] as int, draw[5] as int, draw[6] as int, draw[7] as int);
    let seed = little_endian(draw);
    let r1 = little_endian(draw.skip(1));
    let r2 = little_endian(draw.skip(2));
    let r3 = little_endian(draw.skip(3));
    let r4 = little_endian(draw.skip(4));
    let r5 = little_endian(draw.skip(5));
    let r6 = little_endian(draw.skip(6));
    let r7 = little_endian(draw.skip(7));
    assert forall|i: int| 0 <= i < 8 implies #[trigger] draw.skip(i).skip(1) == draw.skip(i + 1) by {
        assert(draw.skip(i).skip(1) =~= draw.skip(i + 1));
    }
    assert(draw.skip(0) =~= draw);
    assert(little_endian(draw.skip(8)) == 0);
    assert(r7 == b7);
    assert(r6 == b6 + 0x100 * r7);
    assert(r5 == b5 + 0x100 * r6);
    assert(r4 == b4 + 0x100 * r5);
    assert(r3 == b3 + 0x100 * r4);
    assert(r2 == b2 + 0x100 * r3);
    assert(r1 == b1 + 0x100 * r2);
    assert(seed == b0 + 0x100 * r1);
    let l2 = b0 + 0x100 * b1;
    let l3 = l2 + 0x1_0000 * b2;
    let l4 = l3 + 0x100_0000 * b3;
    let l5 = l4 + 0x1_0000_0000 * b4;
    let l6 = l5 + 0x100_0000_0000 * b5;
    let l7 = l6 + 0x1_0000_0000_0000 * b6;
    lemma_digit(seed, 0x100, b0, r1, b1, r2);
    lemma_digit(seed, 0x1_0000, l2, r2, b2, r3);
    lemma_digit(seed, 0x100_0000, l3, r3, b3, r4);
    lemma_digit(seed, 0x1_0000_0000, l4, r4, b4, r5);
    lemma_digit(seed, 0x100_0000_0000, l5, r5, b5, r6);
    lemma_digit(seed, 0x1_0000_0000_0000, l6, r6, b6, r7);
    lemma_digit(seed, 0x100_0000_0000_0000, l7, r7, b7, 0);
}

/// What stands above `low` in a number, and its last digit.
proof fn lemma_digit(x: int, weight: int, low: int, high: int, digit: int, rest: int)
    requires
        0 <= low < weight,
        x == high * weight + low,
        high == digit + 0x100 * rest,
        0 <= digit < 0x100,
    ensures
        x / weight == high,
        x / weight % 0x100 == digit,
{
    vstd::arithmetic::div_mod::lemma_fundamental_div_mod_converse(x, weight, high, low);
}

/// A TCP session goes on exactly as long as bytes arrive, with their count: a
/// read of no byte, a read that times out and one that fails all end it.
pub proof fn law_tcp_read_needs_bytes(outcome: TimedRead, n: usize)
    ensures
        tcp_read_result(outcome) == Ok::<usize, ()>(n) <==> outcome == TimedRead::Read(n) && n > 0,
        tcp_read_result(outcome) is Err <==> outcome == TimedRead::TimedOut || outcome
            == TimedRead::Failed || outcome == TimedRead::Read(0),
{
}

/// A TCP session survives exactly those writes that sent everything in time.
pub proof fn law_tcp_write_needs_everything_sent(outcome: TimedWrite)
    ensures
        tcp_write_result(outcome) is Ok <==> outcome == TimedWrite::Written,
        tcp_write_result(outcome) is Err <==> outcome == TimedWrite::TimedOut || outcome
            == TimedWrite::Failed,
{
}

/// At start-up the radio is brought up where there are a network name and a
/// password, and nothing is done where one of them is missing.
pub proof fn law_start_up(ssid: Seq<char>, password: Seq<char>)
    ensures
        ssid.len() > 0 && password.len() > 0 ==> Server::start(ssid, password).pending_action()
            == ServerAction::BringUp,
        ssid.len() == 0 || password.len() == 0 ==> Server::start(ssid, password).pending_action()
            == ServerAction::Idle,
{
}

/// What the server does next, by what it was doing and what came of it. The
/// link comes before the address, the address before the first socket; a client
/// is accepted on port 4000, on a socket just opened; the engine is obtained
/// before the session and given back behind it, and the connection is aborted
/// before the next socket is opened.
pub proof fn law_server_steps(server: Server)
    ensures
        match server.pending_action() {
            ServerAction::Idle => true,
            ServerAction::BringUp => server.next(ServerEvent::BroughtUp).pending_action()
                == ServerAction::CheckLink,
            ServerAction::CheckLink => {
                &&& server.next(ServerEvent::Link { up: true }).pending_action()
                    == ServerAction::CheckAddress
                &&& server.next(ServerEvent::Link { up: false }).pending_action() == (
                ServerAction::Sleep { ms: 500 })
                &&& server.next(ServerEvent::Link { up: false }).next(
                    ServerEvent::Slept,
                ).pending_action() == ServerAction::CheckLink
            },
            ServerAction::CheckAddress => {
                &&& server.next(ServerEvent::Address { assigned: true }).pending_action()
                    == ServerAction::OpenSocket
                &&& server.next(ServerEvent::Address { assigned: false }).pending_action() == (
                ServerAction::Sleep { ms: 500 })
                &&& server.next(ServerEvent::Address { assigned: false }).next(
                    ServerEvent::Slept,
                ).pending_action() == ServerAction::CheckAddress
            },
            ServerAction::Sleep { ms } => ms == 500,
            ServerAction::OpenSocket => server.next(ServerEvent::SocketOpened).pending_action() == (
            ServerAction::Accept { port: 4000 }),
            ServerAction::Accept { port } => {
                &&& port == 4000
                &&& server.next(ServerEvent::Accepted { ok: true }).pending_action()
                    == ServerAction::LockEngine
                &&& server.next(ServerEvent::Accepted { ok: false }).pending_action() == (
                ServerAction::Sleep { ms: 500 })
                &&& server.next(ServerEvent::Accepted { ok: false }).next(
                    ServerEvent::Slept,
                ).pending_action() == (ServerAction::Accept { port: 4000 })
            },
            ServerAction::LockEngine => server.next(ServerEvent::EngineLocked).pending_action()
                == ServerAction::RunSession,
            ServerAction::RunSession => server.next(ServerEvent::SessionEnded).pending_action()
                == ServerAction::ReleaseEngine,
            ServerAction::ReleaseEngine => server.next(
                ServerEvent::EngineReleased,
            ).pending_action() == ServerAction::AbortSocket,
            ServerAction::AbortSocket => server.next(ServerEvent::SocketAborted).pending_action()
                == ServerAction::OpenSocket,
        },
{
}

/// The server stays where it is until its action is answered.
pub proof fn law_server_waits_for_its_answer(server: Server, event: ServerEvent)
    requires
        !(server.pending_action() is BringUp && event is BroughtUp),
        !(server.pending_action() is CheckLink && event is Link),
        !(server.pending_action() is CheckAddress && event is Address),
        !(server.pending_action() is Sleep && event is Slept),
        !(server.pending_action() is OpenSocket && event is SocketOpened),
        !(server.pending_action() is Accept && event is Accepted),
        !(server.pending_action() is LockEngine && event is EngineLocked),
        !(server.pending_action() is RunSession && event is SessionEnded),
        !(server.pending_action() is ReleaseEngine && event is EngineReleased),
        !(server.pending_action() is AbortSocket && event is SocketAborted),
    ensures
        server.next(event) == server,
{
}

/// What the connection task does next, by what it was doing and what came of
/// it. It starts with the configuration, connects when the station is not
/// connected, waits for the loss of the connection when it is, and lets five
/// seconds pass after a failure or a loss before it checks again.
pub proof fn law_connection_steps(connection: Connection)
    ensures
        Connection::Configuring.pending_action() == ConnectionAction::Configure,
        match connection.pending_action() {
            ConnectionAction::Configure => connection.next(
                ConnectionEvent::Configured,
            ).pending_action() == ConnectionAction::Check,
            ConnectionAction::Check => {
                &&& connection.next(ConnectionEvent::Checked { connected: false }).pending_action()
                    == ConnectionAction::Connect
                &&& connection.next(ConnectionEvent::Checked { connected: true }).pending_action()
                    == ConnectionAction::AwaitDisconnect
            },
            ConnectionAction::Connect => {
                &&& connection.next(ConnectionEvent::ConnectDone { ok: true }).pending_action()
                    == ConnectionAction::Check
                &&& connection.next(ConnectionEvent::ConnectDone { ok: false }).pending_action()
                    == (ConnectionAction::Sleep { ms: 5_000 })
            },
            ConnectionAction::AwaitDisconnect => connection.next(
                ConnectionEvent::Disconnected,
            ).pending_action() == (ConnectionAction::Sleep { ms: 5_000 }),
            ConnectionAction::Sleep { ms } => {
                &&& ms == 5_000
                &&& connection.next(ConnectionEvent::Slept).pending_action()
                    == ConnectionAction::Check
            },
        },
{
}

/// The connection task stays where it is until its action is answered.
pub proof fn law_connection_waits_for_its_answer(connection: Connection, event: ConnectionEvent)
    requires
        !(connection.pending_action() is Configure && event is Configured),
        !(connection.pending_action() is Check && event is Checked),
        !(connection.pending_action() is Connect && event is ConnectDone),
        !(connection.pending_action() is AwaitDisconnect && event is Disconnected),
        !(connection.pending_action() is Sleep && event is Slept),
    ensures
        connection.next(event) == connection,
{
}

/// Without a network name or without a password the server never does
/// anything, whatever happens.
pub proof fn law_usb_only(ssid: Seq<char>, password: Seq<char>, events: Seq<ServerEvent>)
    requires
        ssid.len() == 0 || password.len() == 0,
    ensures
        Server::start(ssid, password).run(events) == Server::UsbOnly,
        Server::start(ssid, password).run(events).pending_action() == ServerAction::Idle,
        !Server::start(ssid, password).run(events).holds_engine(),
    decreases events.len(),
{
    if events.len() > 0 {
        law_usb_only(ssid, password, events.drop_last());
    }
}

/// With credentials the server never comes to idle: it always has something
/// to do next, so it never exits.
pub proof fn law_server_never_idles(
    ssid: Seq<char>,
    password: Seq<char>,
    events: Seq<ServerEvent>,
)
    requires
        ssid.len() > 0,
        password.len() > 0,
    ensures
        Server::start(ssid, password).run(events).pending_action() != ServerAction::Idle,
    decreases events.len(),
{
    if events.len() > 0 {
        law_server_never_idles(ssid, password, events.drop_last());
    }
}

/// The radio and the network stack are brought up once, before anything else.
pub proof fn law_brought_up_once(server: Server, events: Seq<ServerEvent>)
    requires
        server != Server::BringUp,
    ensures
        server.run(events) != Server::BringUp,
        server.run(events).pending_action() != ServerAction::BringUp,
    decreases events.len(),
{
    if events.len() > 0 {
        law_brought_up_once(server, events.drop_last());
    }
}

/// The server gains the engine exactly when the mutex grants it, loses it
/// exactly when it gives it back, and runs a session only while it has it.
pub proof fn law_engine_is_held_by_the_lock(server: Server, event: ServerEvent)
    ensures
        !server.holds_engine() && server.next(event).holds_engine() <==> server is Locking
            && event is EngineLocked,
        server.holds_engine() && !server.next(event).holds_engine() <==> server is Releasing
            && event is EngineReleased,
        server.pending_action() is RunSession ==> server.holds_engine(),
        server.pending_action() is ReleaseEngine ==> server.holds_engine(),
        server.pending_action() is LockEngine ==> !server.holds_engine(),
{
}

/// The server serves clients only once it looked at the link and saw it up
/// and, after that, looked at the address and saw it assigned.
pub proof fn law_serves_only_with_address(
    ssid: Seq<char>,
    password: Seq<char>,
    events: Seq<ServerEvent>,
) -> (at: (int, int))
    requires
        Server::start(ssid, password).run(events).serves(),
    ensures
        0 <= at.0 < at.1 < events.len(),
        Server::start(ssid, password).run(events.take(at.0)) == Server::CheckLink,
        events[at.0] == (ServerEvent::Link { up: true }),
        Server::start(ssid, password).run(events.take(at.1)) == Server::CheckAddress,
        events[at.1] == (ServerEvent::Address { assigned: true }),
{
    let start = Server::start(ssid, password);
    let j = lemma_crossing(events, |es: Seq<ServerEvent>| start.run(es).serves());
    let i = lemma_crossing(
        events.take(j),
        |es: Seq<ServerEvent>| start.run(es) is CheckAddress || start.run(es) is AddressPause,
    );
    assert(events.take(j).take(i) =~= events.take(i));
    (i, j)
}

/// Once the server serves clients, it does so for good.
pub proof fn law_serving_is_for_good(server: Server, events: Seq<ServerEvent>)
    requires
        server.serves(),
    ensures
        server.run(events).serves(),
    decreases events.len(),
{
    if events.len() > 0 {
        law_serving_is_for_good(server, events.drop_last());
    }
}

/// Between the end of one session and the next session, in this order, each in
/// the state that asked for it: the engine is given back, the old connection is
/// aborted, a fresh socket is opened, a client is accepted on it, and the engine
/// is obtained.
pub proof fn law_each_session_has_a_fresh_socket(events: Seq<ServerEvent>) -> (at: (
    int,
    int,
    int,
    int,
    int,
))
    requires
        Server::Releasing.run(events) == Server::Session,
    ensures
        0 <= at.0 < at.1 < at.2 < at.3 < at.4 < events.len(),
        Server::Releasing.run(events.take(at.0)) == Server::Releasing,
        events[at.0] == ServerEvent::EngineReleased,
        Server::Releasing.run(events.take(at.1)) == Server::Aborting,
        events[at.1] == ServerEvent::SocketAborted,
        Server::Releasing.run(events.take(at.2)) == Server::OpenSocket,
        events[at.2] == ServerEvent::SocketOpened,
        Server::Releasing.run(events.take(at.3)) == Server::Accepting,
        events[at.3] == (ServerEvent::Accepted { ok: true }),
        Server::Releasing.run(events.take(at.4)) == Server::Locking,
        events[at.4] == ServerEvent::EngineLocked,
{
    let start = Server::Releasing;
    let (c, d, e) = lemma_socket_then_session(start, events);
    let b = lemma_crossing(events.take(c), |es: Seq<ServerEvent>| start.run(es) is OpenSocket);
    assert(events.take(c).take(b) =~= events.take(b));
    law_serving_is_for_good(start, events.take(b));
    let a = lemma_crossing(events.take(b), |es: Seq<ServerEvent>| start.run(es) is Aborting);
    assert(events.take(b).take(a) =~= events.take(a));
    law_serving_is_for_good(start, events.take(a));
    (a, b, c, d, e)
}

/// From start-up on, the first session too runs only once a socket was opened,
/// a client was accepted on it, and the engine was obtained, in this order and
/// each in the state that asked for it.
pub proof fn law_first_session_has_a_fresh_socket(
    ssid: Seq<char>,
    password: Seq<char>,
    events: Seq<ServerEvent>,
) -> (at: (int, int, int))
    requires
        Server::start(ssid, password).run(events) == Server::Session,
    ensures
        0 <= at.0 < at.1 < at.2 < events.len(),
        Server::start(ssid, password).run(events.take(at.0)) == Server::OpenSocket,
        events[at.0] == ServerEvent::SocketOpened,
        Server::start(ssid, password).run(events.take(at.1)) == Server::Accepting,
        events[at.1] == (ServerEvent::Accepted { ok: true }),
        Server::start(ssid, password).run(events.take(at.2)) == Server::Locking,
        events[at.2] == ServerEvent::EngineLocked,
{
    lemma_socket_then_session(Server::start(ssid, password), events)
}

/// How a server that has no socket open comes to a session.
proof fn lemma_socket_then_session(start: Server, events: Seq<ServerEvent>) -> (at: (int, int, int))
    requires
        !(start is Accepting),
        !(start is AcceptPause),
        !(start is Locking),
        !(start is Session),
        start.run(events) == Server::Session,
    ensures
        0 <= at.0 < at.1 < at.2 < events.len(),
        start.run(events.take(at.0)) == Server::OpenSocket,
        events[at.0] == ServerEvent::SocketOpened,
        start.run(events.take(at.1)) == Server::Accepting,
        events[at.1] == (ServerEvent::Accepted { ok: true }),
        start.run(events.take(at.2)) == Server::Locking,
        events[at.2] == ServerEvent::EngineLocked,
{
    let k = lemma_crossing(events, |es: Seq<ServerEvent>| start.run(es) is Session);
    let j = lemma_crossing(events.take(k), |es: Seq<ServerEvent>| start.run(es) is Locking);
    assert(events.take(k).take(j) =~= events.take(j));
    let i = lemma_crossing(
        events.take(j),
        |es: Seq<ServerEvent>| start.run(es) is Accepting || start.run(es) is AcceptPause,
    );
    assert(events.take(j).take(i) =~= events.take(i));
    (i, j, k)
}

/// What does not hold before the first of `events` and holds behind the last
/// begins to hold at some event.
proof fn lemma_crossing<E>(events: Seq<E>, inside: spec_fn(Seq<E>) -> bool) -> (at: int)
    requires
        !inside(Seq::empty()),
        inside(events),
    ensures
        0 <= at < events.len(),
        !inside(events.take(at)),
        inside(events.take(at + 1)),
        events.take(at + 1).drop_last() == events.take(at),
        events.take(at + 1).last() == events[at],
    decreases events.len(),
{
    if events.len() == 0 {
        assert(events =~= Seq::empty());
    }
    let before = events.drop_last();
    assert(events.take(events.len() - 1) =~= before);
    assert(events.take(events.len() as int) =~= events);
    if inside(before) {
        let at = lemma_crossing(before, inside);
        assert(before.take(at) =~= events.take(at));
        assert(before.take(at + 1) =~= events.take(at + 1));
        at
    } else {
        events.len() - 1
    }
}

/// That many failed accepts, each with the pause behind it.
pub open spec fn failed_accepts(failures: nat) -> Seq<ServerEvent> {
    Seq::new(
        2 * failures,
        |i: int|
            if i % 2 == 0 {
                ServerEvent::Accepted { ok: false }
            } else {
                ServerEvent::Slept
            },
    )
}

/// A failed accept never ends the server: after any number of failures, each
/// followed by its pause, the next client is still let in.
pub proof fn law_accept_retries(failures: nat)
    ensures
        Server::Accepting.run(failed_accepts(failures)) == Server::Accepting,
        Server::Accepting.run(failed_accepts(failures).push(ServerEvent::Accepted { ok: true }))
            == Server::Locking,
{
    let retries = failed_accepts(failures);
    lemma_failed_accepts(failures);
    assert(retries.push(ServerEvent::Accepted { ok: true }).drop_last() =~= retries);
}

proof fn lemma_failed_accepts(failures: nat)
    ensures
        Server::Accepting.run(failed_accepts(failures)) == Server::Accepting,
    decreases failures,
{
    if failures > 0 {
        let all = failed_accepts(failures);
        let fewer = failed_accepts((failures - 1) as nat);
        lemma_failed_accepts((failures - 1) as nat);
        assert(all.drop_last().drop_last() =~= fewer);
        assert(all.drop_last().last() == (ServerEvent::Accepted { ok: false }));
        assert(all.last() == ServerEvent::Slept);
        reveal_with_fuel(Server::run, 3);
    }
}

/// The server pauses only after a link that was down, an address that was
/// missing or an accept that failed; the pause is the one meant for it, and
/// what failed is tried again behind it.
pub proof fn law_failed_step_is_repeated_after_a_pause(server: Server, event: ServerEvent)
    requires
        !(server.pending_action() is Sleep),
        server.next(event).pending_action() is Sleep,
    ensures
        match event {
            ServerEvent::Link { up } => !up && server.next(event).pending_action() == (
            ServerAction::Sleep { ms: LINK_POLL_MS }),
            ServerEvent::Address { assigned } => !assigned && server.next(event).pending_action()
                == (ServerAction::Sleep { ms: LINK_POLL_MS }),
            ServerEvent::Accepted { ok } => !ok && server.next(event).pending_action() == (
            ServerAction::Sleep { ms: ACCEPT_RETRY_MS }),
            _ => false,
        },
        server.next(event).next(ServerEvent::Slept) == server,
{
}

/// The station connects only when it was just seen not to be connected.
pub proof fn law_connects_only_when_not_connected(
    connection: Connection,
    event: ConnectionEvent,
)
    requires
        connection.pending_action() != ConnectionAction::Connect,
        connection.next(event).pending_action() == ConnectionAction::Connect,
    ensures
        connection == Connection::Checking,
        event == (ConnectionEvent::Checked { connected: false }),
{
}

/// The station pauses exactly after a failed attempt and after a lost
/// connection, and checks again behind the pause: it never stops trying.
pub proof fn law_reconnects_after_a_pause(connection: Connection, event: ConnectionEvent)
    requires
        !(connection.pending_action() is Sleep),
    ensures
        connection.next(event).pending_action() is Sleep <==> {
            ||| connection is Connecting && event == (ConnectionEvent::ConnectDone { ok: false })
            ||| connection is Connected && event is Disconnected
        },
        connection.next(event).pending_action() is Sleep ==> {
            &&& connection.next(event).pending_action() == (ConnectionAction::Sleep {
                ms: RECONNECT_MS,
            })
            &&& connection.next(event).next(ConnectionEvent::Slept) == Connection::Checking
        },
{
}

/// Once a connection was refused or lost, a new attempt is made only after the
/// pause is over and, behind it, the station was seen not to be connected.
pub proof fn law_no_attempt_within_the_pause(events: Seq<ConnectionEvent>) -> (at: (int, int))
    requires
        Connection::Pause.run(events) == Connection::Connecting,
    ensures
        0 <= at.0 < at.1 < events.len(),
        Connection::Pause.run(events.take(at.0)) == Connection::Pause,
        events[at.0] == ConnectionEvent::Slept,
        Connection::Pause.run(events.take(at.1)) == Connection::Checking,
        events[at.1] == (ConnectionEvent::Checked { connected: false }),
{
    let j = lemma_crossing(
        events,
        |es: Seq<ConnectionEvent>| Connection::Pause.run(es) is Connecting,
    );
    law_configured_once(Connection::Pause, events.take(j));
    let i = lemma_crossing(
        events.take(j),
        |es: Seq<ConnectionEvent>| !(Connection::Pause.run(es) is Pause),
    );
    assert(events.take(j).take(i) =~= events.take(i));
    (i, j)
}

/// The station is configured once, before anything else.
pub proof fn law_configured_once(connection: Connection, events: Seq<ConnectionEvent>)
    requires
        connection != Connection::Configuring,
    ensures
        connection.run(events) != Connection::Configuring,
    decreases events.len(),
{
    if events.len() > 0 {
        law_configured_once(connection, events.drop_last());
    }
}

} // verus!
