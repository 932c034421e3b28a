//! The per-connection machine and the startup ordering, driven through
//! concrete scenarios.

use static_site::assets::site_routes;
use static_site::assets::RouteTable;
use static_site::server::{
    board_timeouts, step, ConnAction, ConnEvent, ConnState, LISTEN_PORT, TASK_POOL_SIZE,
};
use static_site::startup::{Phase, Startup};

fn demo_table() -> RouteTable {
    site_routes(
        b"<html>counter</html>".to_vec(),
        false,
        b"js".to_vec(),
        false,
        b"wasm".to_vec(),
        false,
    )
}

#[test]
fn board_constants() {
    assert_eq!(LISTEN_PORT, 80);
    assert_eq!(TASK_POOL_SIZE, 1);
    assert!(TASK_POOL_SIZE <= static_site::server::STACK_SOCKET_COUNT);
    assert_eq!(static_site::server::RX_BUFFER_BYTES, 1024);
    assert_eq!(static_site::server::TX_BUFFER_BYTES, 1024);
    assert_eq!(static_site::server::HTTP_BUFFER_BYTES, 2048);
    assert_eq!(static_site::server::ALLOC_POOL_BYTES, 4096);
    let t = board_timeouts();
    assert_eq!(t.start_read_ms, 5000);
    assert_eq!(t.read_ms, 1000);
    assert_eq!(t.write_ms, 1000);
}

#[test]
fn silent_connection_times_out_without_a_response() {
    let table = demo_table();
    let t = board_timeouts();
    let buf: Vec<u8> = Vec::new();

    let (s, a) = step(ConnState::Idle, ConnEvent::Poll, &buf, &table, &t);
    assert!(matches!(s, ConnState::Accepting));
    assert!(matches!(a, ConnAction::WaitForConnection));

    let (s, a) = step(s, ConnEvent::Accepted, &buf, &table, &t);
    assert!(matches!(s, ConnState::Reading));
    assert!(matches!(a, ConnAction::ReadMore(5000)));

    // The client sends nothing inside the start-read budget.
    let (s, a) = step(s, ConnEvent::TimedOut, &buf, &table, &t);
    assert!(matches!(s, ConnState::Closing));
    assert!(matches!(a, ConnAction::CloseConnection));
    assert!(!matches!(a, ConnAction::SendResponse(_)));

    let (s, a) = step(s, ConnEvent::SocketClosed, &buf, &table, &t);
    assert!(matches!(s, ConnState::Idle));
    assert!(matches!(a, ConnAction::Proceed));
}

#[test]
fn incomplete_request_keeps_reading_under_read_budget() {
    let table = demo_table();
    let t = board_timeouts();
    let buf = b"GET / HTTP/1.1\r\nHos".to_vec();
    let (s, a) = step(ConnState::Reading, ConnEvent::DataArrived, &buf, &table, &t);
    assert!(matches!(s, ConnState::Reading));
    assert!(matches!(a, ConnAction::ReadMore(1000)));
}

#[test]
fn complete_request_is_dispatched_and_written() {
    let table = demo_table();
    let t = board_timeouts();
    let buf = b"GET / HTTP/1.1\r\nHost: x\r\n\r\n".to_vec();

    let (s, a) = step(ConnState::Reading, ConnEvent::DataArrived, &buf, &table, &t);
    assert!(matches!(s, ConnState::Dispatching));
    assert!(matches!(a, ConnAction::Proceed));

    let (s, a) = step(s, ConnEvent::Poll, &buf, &table, &t);
    assert!(matches!(s, ConnState::Writing));
    match a {
        ConnAction::SendResponse(bytes) => {
            let expected = static_site::server::handle_request(&table, &buf);
            assert_eq!(bytes, expected);
            let text = String::from_utf8_lossy(&bytes).into_owned();
            assert!(text.starts_with("HTTP/1.1 200 OK\r\n"));
            assert!(text.contains("Content-Type: text/html\r\n"));
        },
        other => panic!("expected a response, got {:?}", other),
    }

    let (s, a) = step(s, ConnEvent::WriteFinished, &buf, &table, &t);
    assert!(matches!(s, ConnState::Closing));
    assert!(matches!(a, ConnAction::CloseConnection));
}

#[test]
fn stalled_write_times_out_without_finishing() {
    let table = demo_table();
    let t = board_timeouts();
    let buf = b"GET / HTTP/1.1\r\nHost: x\r\n\r\n".to_vec();
    let (s, a) = step(ConnState::Writing, ConnEvent::TimedOut, &buf, &table, &t);
    assert!(matches!(s, ConnState::Closing));
    assert!(matches!(a, ConnAction::CloseConnection));
    assert!(!matches!(a, ConnAction::SendResponse(_)));
}

#[test]
fn out_of_protocol_event_closes_the_connection() {
    let table = demo_table();
    let t = board_timeouts();
    let buf: Vec<u8> = Vec::new();
    let (s, a) = step(ConnState::Writing, ConnEvent::Accepted, &buf, &table, &t);
    assert!(matches!(s, ConnState::Closing));
    assert!(matches!(a, ConnAction::CloseConnection));
}

#[test]
fn startup_runs_in_order_and_keeps_the_seed() {
    let mut s = Startup::new();
    assert!(matches!(s.phase, Phase::PowerOn));
    s.clocks_configured();
    assert!(matches!(s.phase, Phase::ClocksConfigured));
    s.peripherals_ready();
    assert!(matches!(s.phase, Phase::PeripheralsReady));
    s.seed_drawn(0x5EED);
    assert!(matches!(s.phase, Phase::SeedDrawn));
    assert_eq!(s.seed, Some(0x5EED));
    s.stack_started();
    assert!(matches!(s.phase, Phase::StackStarted));
    s.config_up();
    assert!(matches!(s.phase, Phase::ConfigUp));
    s.begin_serving();
    assert!(matches!(s.phase, Phase::Serving));
    assert_eq!(s.seed, Some(0x5EED));
}
