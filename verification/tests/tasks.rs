use picoprog::transport::{TimedRead, TimedWrite, TRANSFER_SIZE};
use picoprog::usb::{
    UsbAction, UsbEvent, UsbPoll, UsbRead, UsbSerialJtagTransport, UsbTask, USB_IDLE_TIMEOUT_MS,
};
use picoprog::wifi::{
    has_credentials, network_seed, tcp_read, tcp_write, Connection, ConnectionAction,
    ConnectionEvent, Server, ServerAction, ServerEvent, HEAP_SIZE, IDLE_TIMEOUT_MS, SOCKET_RX_SIZE,
    SOCKET_TX_SIZE,
};

#[test]
fn usb_session_starts_with_the_polled_byte() {
    let mut transport = UsbSerialJtagTransport::begin(0x5A);
    let mut buf = [0u8; 4];
    assert!(transport.has_pending());
    assert_eq!(transport.read(&mut buf), UsbRead::Served(1));
    assert!(!transport.has_pending());
    assert_eq!(buf, [0x5A, 0, 0, 0]);
    assert_eq!(transport.read(&mut buf), UsbRead::Device { timeout_ms: 10_000 });
    assert_eq!(buf, [0x5A, 0, 0, 0]);
    // A buffer without room is fine once the byte is gone.
    assert_eq!(transport.read(&mut []), UsbRead::Device { timeout_ms: 10_000 });
}

#[test]
fn usb_read_results() {
    assert_eq!(UsbSerialJtagTransport::device_read(TimedRead::Read(7)), Ok(7));
    assert_eq!(UsbSerialJtagTransport::device_read(TimedRead::Read(0)), Ok(0));
    assert_eq!(UsbSerialJtagTransport::device_read(TimedRead::TimedOut), Err(()));
    assert_eq!(UsbSerialJtagTransport::device_read(TimedRead::Failed), Err(()));
}

#[test]
fn usb_task_polls_until_one_byte_arrives() {
    let mut task = UsbTask::new();
    for poll in [
        UsbPoll::TimedOut,
        UsbPoll::Failed,
        UsbPoll::Read { count: 0, byte: 9 },
        UsbPoll::Read { count: 2, byte: 9 },
    ] {
        assert_eq!(task.action(), UsbAction::Poll { timeout_ms: 10 });
        task.advance(UsbEvent::Polled(poll));
    }
    assert_eq!(task, UsbTask::Waiting);
    task.advance(UsbEvent::Polled(UsbPoll::Read { count: 1, byte: 9 }));
    assert_eq!(task, UsbTask::Locking { first: 9 });
}

#[test]
fn usb_task_serves_session_after_session() {
    let mut task = UsbTask::new();
    for byte in [0x00u8, 0x10] {
        task.advance(UsbEvent::Polled(UsbPoll::Read { count: 1, byte }));
        assert_eq!(task.action(), UsbAction::LockEngine);
        task.advance(UsbEvent::EngineLocked);
        assert_eq!(task.action(), UsbAction::RunSession { first: byte });
        task.advance(UsbEvent::SessionEnded);
        assert_eq!(task.action(), UsbAction::ReleaseEngine);
        task.advance(UsbEvent::EngineReleased);
        assert_eq!(task, UsbTask::Waiting);
    }
}

#[test]
fn usb_task_ignores_foreign_events() {
    let mut task = UsbTask::new();
    task.advance(UsbEvent::EngineLocked);
    task.advance(UsbEvent::SessionEnded);
    task.advance(UsbEvent::EngineReleased);
    assert_eq!(task, UsbTask::Waiting);
}

#[test]
fn seed_is_little_endian() {
    assert_eq!(network_seed([0; 8]), 0);
    assert_eq!(network_seed([1, 2, 3, 4, 5, 6, 7, 8]), 0x0807_0605_0403_0201);
    assert_eq!(network_seed([0xFF; 8]), u64::MAX);
    assert_eq!(
        network_seed([0, 0, 0, 0, 0, 0, 0, 0x80]),
        u64::from_le_bytes([0, 0, 0, 0, 0, 0, 0, 0x80])
    );
}

#[test]
fn different_draws_give_different_seeds() {
    assert_ne!(network_seed([1, 0, 0, 0, 0, 0, 0, 0]), network_seed([0, 1, 0, 0, 0, 0, 0, 0]));
    assert_ne!(network_seed([0, 0, 0, 0, 0, 0, 0, 1]), network_seed([0; 8]));
}

#[test]
fn tcp_read_results() {
    assert_eq!(tcp_read(TimedRead::Read(5)), Ok(5));
    assert_eq!(tcp_read(TimedRead::Read(0)), Err(()));
    assert_eq!(tcp_read(TimedRead::TimedOut), Err(()));
    assert_eq!(tcp_read(TimedRead::Failed), Err(()));
}

#[test]
fn tcp_write_results() {
    assert_eq!(tcp_write(TimedWrite::Written), Ok(()));
    assert_eq!(tcp_write(TimedWrite::TimedOut), Err(()));
    assert_eq!(tcp_write(TimedWrite::Failed), Err(()));
}

#[test]
fn both_credentials_are_needed() {
    assert!(has_credentials("net", "secret"));
    assert!(!has_credentials("", "secret"));
    assert!(!has_credentials("net", ""));
    assert!(!has_credentials("", ""));
}

#[test]
fn without_credentials_the_server_idles() {
    for (ssid, password) in [("", ""), ("net", ""), ("", "secret")] {
        let mut server = Server::new(ssid, password);
        assert_eq!(server.action(), ServerAction::Idle);
        server.advance(ServerEvent::BroughtUp);
        server.advance(ServerEvent::Accepted { ok: true });
        assert_eq!(server, Server::UsbOnly);
    }
}

fn serving() -> Server {
    let mut server = Server::new("net", "secret");
    assert_eq!(server.action(), ServerAction::BringUp);
    server.advance(ServerEvent::BroughtUp);
    assert_eq!(server.action(), ServerAction::CheckLink);
    server.advance(ServerEvent::Link { up: false });
    assert_eq!(server.action(), ServerAction::Sleep { ms: 500 });
    server.advance(ServerEvent::Slept);
    assert_eq!(server.action(), ServerAction::CheckLink);
    server.advance(ServerEvent::Link { up: true });
    assert_eq!(server.action(), ServerAction::CheckAddress);
    server.advance(ServerEvent::Address { assigned: false });
    assert_eq!(server.action(), ServerAction::Sleep { ms: 500 });
    server.advance(ServerEvent::Slept);
    assert_eq!(server.action(), ServerAction::CheckAddress);
    server.advance(ServerEvent::Address { assigned: true });
    server
}

#[test]
fn server_waits_for_link_and_address() {
    assert_eq!(serving().action(), ServerAction::OpenSocket);
}

#[test]
fn server_accepts_nobody_before_it_has_an_address() {
    let mut server = Server::new("net", "secret");
    server.advance(ServerEvent::BroughtUp);
    server.advance(ServerEvent::Address { assigned: true });
    server.advance(ServerEvent::Accepted { ok: true });
    assert_eq!(server, Server::CheckLink);
}

#[test]
fn server_retries_a_failed_accept() {
    let mut server = serving();
    server.advance(ServerEvent::SocketOpened);
    for _ in 0..3 {
        assert_eq!(server.action(), ServerAction::Accept { port: 4000 });
        server.advance(ServerEvent::Accepted { ok: false });
        assert_eq!(server.action(), ServerAction::Sleep { ms: 500 });
        server.advance(ServerEvent::Slept);
    }
    server.advance(ServerEvent::Accepted { ok: true });
    assert_eq!(server, Server::Locking);
}

#[test]
fn server_opens_a_fresh_socket_for_each_session() {
    let mut server = serving();
    for _ in 0..2 {
        assert_eq!(server.action(), ServerAction::OpenSocket);
        server.advance(ServerEvent::SocketOpened);
        server.advance(ServerEvent::Accepted { ok: true });
        assert_eq!(server.action(), ServerAction::LockEngine);
        server.advance(ServerEvent::EngineLocked);
        assert_eq!(server.action(), ServerAction::RunSession);
        server.advance(ServerEvent::SessionEnded);
        assert_eq!(server.action(), ServerAction::ReleaseEngine);
        server.advance(ServerEvent::EngineReleased);
        assert_eq!(server.action(), ServerAction::AbortSocket);
        server.advance(ServerEvent::SocketAborted);
    }
    assert_eq!(server, Server::OpenSocket);
}

#[test]
fn server_is_brought_up_once() {
    let mut server = serving();
    server.advance(ServerEvent::BroughtUp);
    assert_eq!(server.action(), ServerAction::OpenSocket);
}

#[test]
fn engine_is_granted_only_to_a_task_that_waits_for_it() {
    let mut server = serving();
    server.advance(ServerEvent::EngineLocked);
    assert_eq!(server, Server::OpenSocket);
    let mut usb = UsbTask::Session { first: 3 };
    usb.advance(UsbEvent::EngineReleased);
    assert_eq!(usb, UsbTask::Session { first: 3 });
}

#[test]
fn usb_session_delivers_every_byte_in_order() {
    let mut transport = UsbSerialJtagTransport::begin(1);
    let mut device = [vec![2u8, 3], vec![], vec![4]].into_iter();
    let mut engine: Vec<u8> = Vec::new();
    let ended = loop {
        let mut buf = [0u8; 8];
        let result = match transport.read(&mut buf) {
            UsbRead::Served(n) => Ok(n),
            UsbRead::Device { .. } => UsbSerialJtagTransport::device_read(match device.next() {
                Some(chunk) => {
                    buf[..chunk.len()].copy_from_slice(&chunk);
                    TimedRead::Read(chunk.len())
                }
                None => TimedRead::TimedOut,
            }),
        };
        match result {
            Ok(n) => engine.extend_from_slice(&buf[..n]),
            Err(()) => break true,
        }
    };
    assert!(ended);
    assert_eq!(engine, [1, 2, 3, 4]);
}

#[test]
fn waiting_task_gets_the_engine_after_the_other() {
    let mut usb = UsbTask::Session { first: 1 };
    let mut server = Server::Locking;
    usb.advance(UsbEvent::SessionEnded);
    usb.advance(UsbEvent::EngineReleased);
    server.advance(ServerEvent::EngineLocked);
    assert_eq!(usb, UsbTask::Waiting);
    assert_eq!(server, Server::Session);
}

#[test]
fn station_connects_and_reconnects() {
    let mut connection = Connection::new();
    assert_eq!(connection.action(), ConnectionAction::Configure);
    connection.advance(ConnectionEvent::Configured);
    assert_eq!(connection.action(), ConnectionAction::Check);
    connection.advance(ConnectionEvent::Checked { connected: false });
    assert_eq!(connection.action(), ConnectionAction::Connect);
    connection.advance(ConnectionEvent::ConnectDone { ok: false });
    assert_eq!(connection.action(), ConnectionAction::Sleep { ms: 5000 });
    connection.advance(ConnectionEvent::Slept);
    assert_eq!(connection.action(), ConnectionAction::Check);
    connection.advance(ConnectionEvent::Checked { connected: false });
    connection.advance(ConnectionEvent::ConnectDone { ok: true });
    assert_eq!(connection.action(), ConnectionAction::Check);
    connection.advance(ConnectionEvent::Checked { connected: true });
    assert_eq!(connection.action(), ConnectionAction::AwaitDisconnect);
    connection.advance(ConnectionEvent::Disconnected);
    assert_eq!(connection.action(), ConnectionAction::Sleep { ms: 5000 });
    connection.advance(ConnectionEvent::Checked { connected: false });
    assert_eq!(connection.action(), ConnectionAction::Sleep { ms: 5000 });
    connection.advance(ConnectionEvent::Slept);
    assert_eq!(connection, Connection::Checking);
}

#[test]
fn limits() {
    assert_eq!(TRANSFER_SIZE, 64);
    assert_eq!(USB_IDLE_TIMEOUT_MS, 10 * 1000);
    assert_eq!(IDLE_TIMEOUT_MS, 60 * 1000);
    assert_eq!(HEAP_SIZE, 72 * 1024);
    assert_eq!((SOCKET_RX_SIZE, SOCKET_TX_SIZE), (4096, 4096));
}
