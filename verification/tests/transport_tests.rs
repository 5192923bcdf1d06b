use mpv_control::errors::MpvError;
use mpv_control::transport::{classify_reply, Reply};
use mpv_control::wire::{frame_request, Request};

#[test]
fn no_reply_line_is_implicit_success() {
    let reply = classify_reply(&Vec::new());
    assert!(matches!(reply, Ok(Reply::ImplicitOk)));
}

#[test]
fn volume_roundtrip_without_reply_is_success() {
    let line = frame_request(&Request::SetVolume { volume: 42 });
    assert_eq!(line, b"{\"command\":[\"set_property\",\"volume\",42]}\n".to_vec());
    // The peer closed the stream without sending a reply line back.
    let reply = classify_reply(&Vec::new());
    assert!(reply.is_ok());
}

#[test]
fn well_formed_reply_is_a_payload() {
    let reply = classify_reply(&b"{\"error\":\"success\"}".to_vec());
    let payload = match reply {
        Ok(Reply::Payload(v)) => v,
        _ => panic!("expected a payload"),
    };
    assert_eq!(payload.get("error").unwrap().as_str().unwrap(), "success");
}

#[test]
fn malformed_reply_is_a_protocol_error_not_a_panic() {
    let reply = classify_reply(&b"not json at all".to_vec());
    let error = match reply {
        Err(e) => e,
        Ok(_) => panic!("expected a protocol error"),
    };
    assert!(matches!(error, MpvError::ProtocolError(_)));
    assert!(!error.message().is_empty());
}

#[test]
fn truncated_reply_is_a_protocol_error() {
    let reply = classify_reply(&b"{\"error\":".to_vec());
    assert!(matches!(reply, Err(MpvError::ProtocolError(_))));
}

#[test]
fn connect_failure_message() {
    let error = MpvError::ConnectFailure(String::from("Connection refused (os error 111)"));
    assert_eq!(
        error.message(),
        "mpv connect failed: Connection refused (os error 111)"
    );
}

#[test]
fn unsupported_platform_message() {
    let error = MpvError::UnsupportedPlatform;
    assert_eq!(
        error.message(),
        "mpv IPC over a local socket is not supported on this platform"
    );
}
