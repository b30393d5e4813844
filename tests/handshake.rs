use ra_driver::handshake::{advance, server_identity, start, version_banner, Event, HandshakeError, Stage, Step};

#[test]
fn version_banner_names_product_and_revision() {
    let b = version_banner("abc1234");
    assert_eq!(b, "rust-analyzer abc1234");
    assert!(b.contains("rust-analyzer"));
    assert!(b.contains("abc1234"));
}

#[test]
fn server_identity_carries_revision() {
    let id = server_identity("r42");
    assert_eq!(id.name, "rust-analyzer");
    assert_eq!(id.version, Some("r42".to_string()));
}

#[test]
fn successful_handshake_reaches_ready() {
    let (s, step) = start();
    assert_eq!(step, Step::Read);
    let (s, step) = advance(s, Event::Received);
    assert_eq!(step, Step::Decode);
    let (s, step) = advance(s, Event::Decoded);
    assert_eq!(step, Step::Respond);
    let (s, step) = advance(s, Event::Sent);
    assert_eq!(step, Step::BuildConfig);
    let (s, step) = advance(s, Event::ConfigBuilt);
    assert_eq!(step, Step::EnterLoop);
    assert_eq!(s, Stage::Ready);
}

#[test]
fn malformed_request_aborts_without_response() {
    let (s, _) = start();
    let (s, _) = advance(s, Event::Received);
    let (s, step) = advance(s, Event::DecodeFailed);
    assert_eq!(step, Step::Abort(HandshakeError::Decode));
    assert_eq!(s, Stage::Failed(HandshakeError::Decode));
    let mut s = s;
    for e in [Event::Decoded, Event::Sent, Event::ConfigBuilt] {
        let (next, step) = advance(s, e);
        assert_ne!(step, Step::Respond);
        assert_eq!(step, Step::Abort(HandshakeError::Decode));
        s = next;
    }
}

#[test]
fn transport_failures_are_fatal() {
    let (s, _) = start();
    let (_, step) = advance(s, Event::ReceiveFailed);
    assert_eq!(step, Step::Abort(HandshakeError::Transport));
    let (_, step) = advance(Stage::AwaitSend, Event::SendFailed);
    assert_eq!(step, Step::Abort(HandshakeError::Transport));
}

#[test]
fn out_of_order_event_fails() {
    let (_, step) = advance(Stage::AwaitRequest, Event::Sent);
    assert_eq!(step, Step::Abort(HandshakeError::OutOfOrder));
}
