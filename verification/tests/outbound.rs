//! The outcome and audit entry of each outbound send, and error texts.

use messaggero::protocol::error::{codec_error_text, transport_error_text, AgentError, CodecError, TransportError};
use messaggero::protocol::metadata::Metadata;
use messaggero::protocol::types::{Message, TaskResponse};
use messaggero::transport::fast::codec::FastMessage;
use messaggero::transport::log::{Direction, TransportKind};
use messaggero::transport::outbound::{
    dispatch_step, fast_dispatch_result, fast_dispatch_step, fast_send_result, fast_send_step,
};

fn timed_response(id: &str, llm_us: &str) -> TaskResponse {
    let mut r = TaskResponse::completed(id, Message::agent("x"));
    let mut m = Metadata::new();
    m.insert("llm_us".into(), llm_us.into());
    r.metadata = Some(m);
    r
}

#[test]
fn error_texts() {
    assert_eq!(transport_error_text(&TransportError::Connection("refused".into())), "connection error: refused");
    assert_eq!(transport_error_text(&TransportError::AgentNotFound("x".into())), "agent not found: x");
    assert_eq!(transport_error_text(&TransportError::Request("bad".into())), "request error: bad");
    assert_eq!(transport_error_text(&TransportError::Timeout), "timeout");
    assert_eq!(
        transport_error_text(&TransportError::Agent(AgentError::Internal("boom".into()))),
        "agent error: agent internal error: boom"
    );
    assert_eq!(
        transport_error_text(&TransportError::Codec(CodecError::InvalidFrame("short".into()))),
        "codec error: invalid frame: short"
    );
    let io = std::io::Error::new(std::io::ErrorKind::Other, "disk gone");
    assert_eq!(transport_error_text(&TransportError::Io(io)), "IO error: disk gone");
    let json = serde_json::from_str::<serde_json::Value>("{").unwrap_err();
    let expected = format!("JSON serialization error: {json}");
    assert_eq!(codec_error_text(&CodecError::Json(json)), expected);
    let bin = bincode::deserialize::<String>(&[1]).unwrap_err();
    let expected = format!("binary serialization error: {bin}");
    assert_eq!(codec_error_text(&CodecError::Bincode(bin)), expected);
}

#[test]
fn fast_send_records_every_outcome() {
    let (r, e) = fast_send_step(
        "ts".into(),
        "t1".into(),
        Some("s".into()),
        1000,
        Ok(()),
        Some(Ok(FastMessage::TaskResponse(timed_response("t1", "400")))),
    );
    assert!(matches!(r, Ok(FastMessage::TaskResponse(_))));
    assert_eq!(e.status, "ok");
    assert_eq!(e.transport, TransportKind::Fast);
    assert_eq!(e.direction, Direction::Outbound);
    assert_eq!(e.task_id, "t1");
    assert_eq!(e.session_id.as_deref(), Some("s"));
    assert_eq!(e.llm_us, Some(400));
    assert_eq!(e.transport_us, Some(600));

    // A write that fails still yields an entry.
    let (r, e) = fast_send_step(
        "ts".into(),
        "t2".into(),
        None,
        5,
        Err(CodecError::InvalidFrame("payload too large".into())),
        None,
    );
    assert!(matches!(r, Err(TransportError::Codec(CodecError::InvalidFrame(_)))));
    assert_eq!(e.status, "error");
    assert_eq!(e.error.as_deref(), Some("codec error: invalid frame: payload too large"));
    assert_eq!(e.llm_us, None);

    let (r, e) = fast_send_step("ts".into(), "t3".into(), None, 5, Ok(()), None);
    assert!(matches!(r, Err(TransportError::Connection(ref m)) if m == "connection closed"));
    assert_eq!(e.error.as_deref(), Some("connection error: connection closed"));

    // A reply that is not a response succeeds, without timing.
    let (r, e) = fast_send_step("ts".into(), "t4".into(), None, 5, Ok(()), Some(Ok(FastMessage::Error("e".into()))));
    assert!(matches!(r, Ok(FastMessage::Error(_))));
    assert_eq!(e.status, "ok");
    assert_eq!(e.llm_us, None);

    assert!(matches!(fast_send_result(Ok(()), Some(Ok(FastMessage::Pong))), Ok(FastMessage::Pong)));
}

#[test]
fn dispatch_records_every_outcome() {
    let (r, e) = fast_dispatch_step(
        "ts".into(),
        "t".into(),
        None,
        50,
        Err(TransportError::Connection("no socket".into())),
    );
    assert!(matches!(r, Err(TransportError::Connection(_))));
    assert_eq!(e.status, "error");
    assert_eq!(e.transport, TransportKind::Fast);
    assert_eq!(e.error.as_deref(), Some("connection error: no socket"));

    let (r, e) = fast_dispatch_step("ts".into(), "t".into(), None, 50, Ok(FastMessage::Error("task not found: t".into())));
    match r {
        Err(TransportError::Request(s)) => assert_eq!(s, "task not found: t"),
        other => panic!("unexpected {other:?}"),
    }
    assert_eq!(e.error.as_deref(), Some("request error: task not found: t"));

    let (r, e) = fast_dispatch_step(
        "ts".into(),
        "t".into(),
        None,
        50,
        Ok(FastMessage::TaskResponse(timed_response("t", "80"))),
    );
    assert_eq!(r.unwrap().id, "t");
    assert_eq!((e.status, e.llm_us, e.transport_us), ("ok", Some(80), Some(0)));

    assert!(matches!(
        fast_dispatch_result(Ok(FastMessage::Ping)),
        Err(TransportError::Request(ref s)) if s == "unexpected response: Ping"
    ));
    let req = messaggero::protocol::types::TaskRequest::new(Message::user("q"));
    assert!(matches!(
        fast_dispatch_result(Ok(FastMessage::TaskRequest(req))),
        Err(TransportError::Request(ref s)) if s.starts_with("unexpected response: TaskRequest(")
    ));

    let (r, e) = dispatch_step("ts".into(), TransportKind::A2a, "t".into(), None, 9, Err(TransportError::Timeout));
    assert!(matches!(r, Err(TransportError::Timeout)));
    assert_eq!(e.transport, TransportKind::A2a);
    assert_eq!(e.error.as_deref(), Some("timeout"));
}
