use std::time::Duration;

use northstar::{
    gemini_mime, step, Action, Builder, CloseReason, Event, Phase, RequestError, GEMINI_MIME_STR,
    GEMINI_PORT,
};

fn received(line: &[u8], chain: Option<Vec<Vec<u8>>>) -> Event {
    Event::RequestReceived { line: line.to_vec(), peer_certificates: chain }
}

#[test]
fn gemini_mime_parses() {
    let mime = gemini_mime().unwrap();
    assert_eq!(mime.as_ref(), GEMINI_MIME_STR);
    assert_eq!(mime.type_(), "text");
    assert_eq!(mime.subtype(), "gemini");
    assert_eq!(gemini_mime().unwrap(), mime);
}

#[test]
fn well_known_port() {
    assert_eq!(GEMINI_PORT, 1965);
}

#[test]
fn builder_defaults_to_thirty_seconds() {
    let builder = Builder::bind(("localhost", GEMINI_PORT));
    assert_eq!(builder.timeout(), Duration::from_secs(30));
    assert_eq!(*builder.addr(), ("localhost", GEMINI_PORT));
}

#[test]
fn builder_takes_a_timeout() {
    let builder = Builder::bind("127.0.0.1:1965").set_timeout(Duration::from_millis(1500));
    let (addr, timeout) = builder.into_parts();
    assert_eq!(addr, "127.0.0.1:1965");
    assert_eq!(timeout, Duration::from_millis(1500));
}

#[test]
fn request_timeout_closes_without_dispatch() {
    let (phase, action) = step(Phase::ReceivingRequest, Event::RequestTimedOut);
    assert_eq!(phase, Phase::Closed);
    assert!(matches!(action, Action::Close(CloseReason::RequestTimedOut)));
}

#[test]
fn handshake_and_read_failures_close() {
    let (phase, action) = step(Phase::ReceivingRequest, Event::HandshakeFailed);
    assert_eq!(phase, Phase::Closed);
    assert!(matches!(action, Action::Close(CloseReason::HandshakeFailed)));
    let (phase, action) = step(Phase::ReceivingRequest, Event::ReadFailed);
    assert_eq!(phase, Phase::Closed);
    assert!(matches!(action, Action::Close(CloseReason::ReadFailed)));
}

#[test]
fn malformed_line_closes_before_dispatch() {
    let (phase, action) = step(Phase::ReceivingRequest, received(b"GET /foo\n", None));
    assert_eq!(phase, Phase::Closed);
    assert!(matches!(
        action,
        Action::Close(CloseReason::BadRequest(RequestError::NotCrlfTerminated))
    ));
}

#[test]
fn self_signed_certificate_reaches_request() {
    let leaf = vec![0x30, 0x82, 0x01, 0x0a, 7, 7];
    let chain = Some(vec![leaf.clone(), vec![9, 9]]);
    let (phase, action) = step(Phase::ReceivingRequest, received(b"gemini://host/\r\n", chain));
    assert_eq!(phase, Phase::Dispatching);
    match action {
        Action::Dispatch(req) => {
            assert_eq!(req.certificate().clone(), Some(leaf));
            assert_eq!(req.uri().to_vec(), b"gemini://host/".to_vec());
        }
        _ => panic!("expected dispatch"),
    }
}

#[test]
fn anonymous_client_has_no_certificate() {
    for chain in [None, Some(Vec::new())] {
        let (_, action) = step(Phase::ReceivingRequest, received(b"gemini://host/\r\n", chain));
        match action {
            Action::Dispatch(req) => assert_eq!(req.certificate().clone(), None),
            _ => panic!("expected dispatch"),
        }
    }
}

#[test]
fn handler_panic_sends_server_error() {
    for event in [Event::HandlerPanicked, Event::HandlerFailed] {
        let (phase, action) = step(Phase::Dispatching, event);
        assert_eq!(phase, Phase::SendingResponse);
        match action {
            Action::SendHeader(h) => {
                assert_eq!(h.status.code(), 50);
                assert!(!h.meta.is_empty());
            }
            _ => panic!("expected a header"),
        }
    }
}

#[test]
fn full_connection_cycle() {
    let (phase, action) = step(Phase::ReceivingRequest, received(b"gemini://host/\r\n", None));
    assert_eq!(phase, Phase::Dispatching);
    assert!(matches!(action, Action::Dispatch(_)));
    let (phase, action) = step(phase, Event::HandlerReturned);
    assert_eq!(phase, Phase::SendingResponse);
    assert!(matches!(action, Action::SendHandlerResponse));
    let (phase, action) = step(phase, Event::ResponseSent);
    assert_eq!(phase, Phase::Closed);
    assert!(matches!(action, Action::Close(CloseReason::Completed)));
}

#[test]
fn response_failures_close() {
    let (phase, action) = step(Phase::SendingResponse, Event::ResponseTimedOut);
    assert_eq!(phase, Phase::Closed);
    assert!(matches!(action, Action::Close(CloseReason::ResponseTimedOut)));
    let (_, action) = step(Phase::SendingResponse, Event::WriteFailed);
    assert!(matches!(action, Action::Close(CloseReason::WriteFailed)));
}

#[test]
fn out_of_order_events_close() {
    let (phase, action) = step(Phase::Closed, Event::ResponseSent);
    assert_eq!(phase, Phase::Closed);
    assert!(matches!(action, Action::Close(CloseReason::OutOfOrder)));
    let (_, action) = step(Phase::Dispatching, Event::RequestTimedOut);
    assert!(matches!(action, Action::Close(CloseReason::OutOfOrder)));
}
