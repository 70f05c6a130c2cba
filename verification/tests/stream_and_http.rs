use windows_kernel::driver::{
    client_version, http_request, receive_outcome, remote_host, wsk_make_version, DriverAction,
    DriverEvent, DriverReport, DriverRun, REMOTE_PORT, RESPONSE_CHUNK_SIZE,
};
use windows_kernel::http::{http_response_state, parse_usize};
use windows_kernel::receive::{ReceiveState, StreamReceive};
use windows_kernel::socket::SockAddrIn;
use windows_kernel::status::{
    STATUS_INVALID_DOMAIN_STATE, STATUS_INVALID_MESSAGE, STATUS_INVALID_PARAMETER,
    STATUS_NOT_FOUND, STATUS_SUCCESS, STATUS_UNSUCCESSFUL,
};

fn decision(bytes: &[u8]) -> ReceiveState<()> {
    http_response_state(bytes).unwrap()
}

#[test]
fn complete_response_is_complete() {
    let r = decision(b"HTTP/1.1 200 OK\r\nContent-Length: 5\r\n\r\nhello");
    assert!(matches!(r, ReceiveState::Complete(())));
}

#[test]
fn short_body_keeps_all_bytes() {
    let bytes = b"HTTP/1.1 200 OK\r\nContent-Length: 10\r\n\r\nhello";
    let r = decision(bytes);
    assert!(matches!(r, ReceiveState::Partial(n) if n == bytes.len()));
}

#[test]
fn incomplete_head_keeps_all_bytes() {
    let bytes = b"HTTP/1.1 200 OK\r\nContent-Le";
    assert!(matches!(decision(bytes), ReceiveState::Partial(n) if n == bytes.len()));
}

#[test]
fn missing_content_length_is_not_found() {
    let r = decision(b"HTTP/1.1 200 OK\r\nServer: x\r\n\r\n");
    assert!(matches!(r, ReceiveState::Failure(s) if s == STATUS_NOT_FOUND));
}

#[test]
fn content_length_name_is_exact() {
    let r = decision(b"HTTP/1.1 200 OK\r\ncontent-length: 0\r\n\r\n");
    assert!(matches!(r, ReceiveState::Failure(s) if s == STATUS_NOT_FOUND));
}

#[test]
fn unreadable_content_length_is_invalid_parameter() {
    let r = decision(b"HTTP/1.1 200 OK\r\nContent-Length: 1x\r\n\r\n");
    assert!(matches!(r, ReceiveState::Failure(s) if s == STATUS_INVALID_PARAMETER));
}

#[test]
fn first_content_length_counts() {
    let r = decision(b"HTTP/1.1 200 OK\r\nContent-Length: 2\r\nContent-Length: 0\r\n\r\nok");
    assert!(matches!(r, ReceiveState::Complete(())));
}

#[test]
fn garbage_is_invalid_message() {
    let r = decision(b"NOT HTTP\r\n\r\n");
    assert!(matches!(r, ReceiveState::Failure(s) if s == STATUS_INVALID_MESSAGE));
}

#[test]
fn too_many_headers_is_invalid_message() {
    let mut bytes = b"HTTP/1.1 200 OK\r\n".to_vec();
    for i in 0..17 {
        bytes.extend_from_slice(format!("X-{}: a\r\n", i).as_bytes());
    }
    bytes.extend_from_slice(b"\r\n");
    let r = decision(&bytes);
    assert!(matches!(r, ReceiveState::Failure(s) if s == STATUS_INVALID_MESSAGE));
}

#[test]
fn usize_reading() {
    assert_eq!(parse_usize(b"123"), Some(123));
    assert_eq!(parse_usize(b"+7"), Some(7));
    assert_eq!(parse_usize(b"007"), Some(7));
    assert_eq!(parse_usize(b"+"), None);
    assert_eq!(parse_usize(b""), None);
    assert_eq!(parse_usize(b"-1"), None);
    assert_eq!(parse_usize(b" 1"), None);
    assert_eq!(parse_usize(b"12a"), None);
    assert_eq!(parse_usize(b"99999999999999999999999"), None);
    assert_eq!(parse_usize(usize::MAX.to_string().as_bytes()), Some(usize::MAX));
    for text in ["0", "+0", "4096", "18446744073709551616", "1_0", "++1"] {
        let expected = std::str::from_utf8(text.as_bytes()).ok().and_then(|s| s.parse::<usize>().ok());
        assert_eq!(parse_usize(text.as_bytes()), expected, "{}", text);
    }
}

#[test]
fn stream_accumulates_chunks() {
    let mut rx: StreamReceive<()> = StreamReceive::new(4);
    assert_eq!(rx.next_receive(), Some(0));
    assert_eq!(rx.room(), 4);
    assert!(rx.on_received(Ok(b"abcd".to_vec())));
    assert_eq!(rx.received(), b"abcd");
    rx.decide(Some(ReceiveState::Partial(4)));
    assert_eq!(rx.next_receive(), Some(4));
    assert_eq!(rx.room(), 4);
    assert!(rx.on_received(Ok(b"ef".to_vec())));
    assert_eq!(rx.received(), b"abcdef");
    rx.decide(Some(ReceiveState::Partial(6)));
    assert_eq!(rx.next_receive(), Some(6));
    assert_eq!(rx.room(), 2);
    assert!(rx.on_received(Ok(b"g".to_vec())));
    assert_eq!(rx.received(), b"abcdefg");
    rx.decide(Some(ReceiveState::Complete(())));
    assert_eq!(rx.next_receive(), None);
    assert!(rx.is_done());
    assert!(matches!(rx.outcome(), Some(ReceiveState::Complete(()))));
}

#[test]
fn stream_failure_is_outcome() {
    let mut rx: StreamReceive<u8> = StreamReceive::new(8);
    rx.next_receive();
    assert!(!rx.on_received(Err(-12)));
    assert_eq!(rx.next_receive(), None);
    assert!(matches!(rx.outcome(), Some(ReceiveState::Failure(-12))));
}

#[test]
fn stream_without_decision_has_no_outcome() {
    let mut rx: StreamReceive<u8> = StreamReceive::new(8);
    rx.next_receive();
    rx.on_received(Ok(vec![1, 2]));
    rx.decide(None);
    assert!(rx.is_done());
    assert!(rx.outcome().is_none());
}

#[test]
fn stream_keeps_last_decision_when_ended() {
    let mut rx: StreamReceive<u8> = StreamReceive::new(8);
    rx.next_receive();
    rx.on_received(Ok(vec![1, 2]));
    rx.decide(Some(ReceiveState::Partial(2)));
    rx.next_receive();
    rx.on_received(Ok(vec![3]));
    rx.decide(None);
    assert!(matches!(rx.outcome(), Some(ReceiveState::Partial(2))));
}

#[test]
fn receive_outcome_mapping() {
    assert_eq!(receive_outcome(None), Err(STATUS_INVALID_DOMAIN_STATE));
    assert_eq!(receive_outcome(Some(ReceiveState::Complete(()))), Ok(()));
    assert_eq!(receive_outcome(Some(ReceiveState::Failure(-4))), Err(-4));
    assert_eq!(receive_outcome(Some(ReceiveState::Partial(10))), Err(STATUS_UNSUCCESSFUL));
}

#[test]
fn version_and_constants() {
    assert_eq!(wsk_make_version(1, 0), 0x100);
    assert_eq!(wsk_make_version(2, 3), 0x203);
    assert_eq!(client_version(), 0x100);
    assert_eq!(remote_host(), "54.164.234.192");
    assert_eq!(http_request(), "GET /range/4096 HTTP/1.1\r\nHost: 54.164.234.192\r\n\r\n");
    assert_eq!(REMOTE_PORT, 80);
    assert_eq!(RESPONSE_CHUNK_SIZE, 512);
}

#[test]
fn driver_run_success() {
    let (mut run, a) = DriverRun::new();
    assert!(matches!(a, DriverAction::CreateState { client_version: 0x100 }));
    assert!(matches!(
        run.step(DriverEvent::Done(Ok(()))),
        DriverAction::CreateSocket { address_family: 2, socket_type: 1, protocol: 6 }
    ));
    match run.step(DriverEvent::Done(Ok(()))) {
        DriverAction::ParseAddress { host, strict } => {
            assert_eq!(host, "54.164.234.192");
            assert!(strict);
        }
        _ => panic!("expected the address to be read"),
    }
    assert!(matches!(
        run.step(DriverEvent::AddressParsed(STATUS_SUCCESS, 0xC0EA_A436)),
        DriverAction::Connect { remote: SockAddrIn { family: 2, port: 80, addr: 0xC0EA_A436 } }
    ));
    match run.step(DriverEvent::Done(Ok(()))) {
        DriverAction::SendRequest { request, flags } => {
            assert_eq!(request.len(), 50);
            assert_eq!(request, "GET /range/4096 HTTP/1.1\r\nHost: 54.164.234.192\r\n\r\n");
            assert_eq!(flags, 0);
        }
        _ => panic!("expected the request to be sent"),
    }
    assert!(matches!(run.step(DriverEvent::Sent(Ok(50))), DriverAction::ReceiveResponse { chunk_size: 512 }));
    let a = run.step(DriverEvent::Received(Some(ReceiveState::Complete(()))));
    assert!(matches!(a, DriverAction::Report(DriverReport::Succeeded)));
    assert_eq!(run.entry_status(), STATUS_SUCCESS);
}

#[test]
fn driver_run_state_failure() {
    let (mut run, _) = DriverRun::new();
    let a = run.step(DriverEvent::Done(Err(-30)));
    assert!(matches!(a, DriverAction::Report(DriverReport::StateCreationFailed(-30))));
    let a = run.step(DriverEvent::Done(Ok(())));
    assert!(matches!(a, DriverAction::Report(DriverReport::StateCreationFailed(-30))));
    assert_eq!(run.entry_status(), STATUS_SUCCESS);
}

#[test]
fn driver_run_connection_failures() {
    let (mut run, _) = DriverRun::new();
    run.step(DriverEvent::Done(Ok(())));
    run.step(DriverEvent::Done(Ok(())));
    let a = run.step(DriverEvent::AddressParsed(-31, 0));
    assert!(matches!(a, DriverAction::Report(DriverReport::ConnectionFailed(-31))));

    let (mut run, _) = DriverRun::new();
    run.step(DriverEvent::Done(Ok(())));
    run.step(DriverEvent::Done(Ok(())));
    run.step(DriverEvent::AddressParsed(STATUS_SUCCESS, 1));
    run.step(DriverEvent::Done(Ok(())));
    run.step(DriverEvent::Sent(Ok(1)));
    let a = run.step(DriverEvent::Received(Some(ReceiveState::Partial(3))));
    assert!(matches!(a, DriverAction::Report(DriverReport::ConnectionFailed(s)) if s == STATUS_UNSUCCESSFUL));
}

#[test]
fn stream_grows_only_when_full() {
    let mut rx: StreamReceive<()> = StreamReceive::new(4);
    assert_eq!(rx.next_receive(), Some(0));
    assert!(rx.on_received(Ok(b"ab".to_vec())));
    rx.decide(Some(ReceiveState::Partial(2)));
    assert!(rx.can_ask());
    assert_eq!(rx.next_receive(), Some(2));
    assert_eq!(rx.room(), 2);
}
