//! The fast transport's message handling, middleware layering, serving
//! plans, errors, metadata and number text.

use messaggero::protocol::agent::{canceled_status, Layer, MiddlewareStack};
use messaggero::protocol::error::{AgentError, TransportError};
use messaggero::protocol::metadata::Metadata;
use messaggero::protocol::types::{Message, TaskRequest, TaskResponse, TaskState};
use messaggero::server::{client_transport, serve, transport_kind, ServerBuilder, TransportContext};
use messaggero::text::{parse_u64, push_decimal, push_signed_decimal, push_zero_padded, str_eq};
use messaggero::transport::fast::codec::FastMessage;
use messaggero::transport::fast::exchange::{is_pong, reply_for_outcome, server_step, task_reply, ServerStep};
use messaggero::transport::log::TransportKind;

#[test]
fn server_answers_ping_and_hands_over_tasks() {
    assert!(matches!(server_step(FastMessage::Ping), ServerStep::Reply(FastMessage::Pong)));
    let req = TaskRequest::new(Message::user("hi")).with_id("t-1");
    match server_step(FastMessage::TaskRequest(req)) {
        ServerStep::Handle(r) => {
            assert_eq!(r.id, "t-1");
            assert_eq!(r.message.text_content(), Some("hi"));
        }
        other => panic!("unexpected {other:?}"),
    }
    assert!(matches!(server_step(FastMessage::Pong), ServerStep::Skip));
    assert!(matches!(server_step(FastMessage::Error("e".into())), ServerStep::Skip));
    let resp = TaskResponse::completed("x", Message::agent("y"));
    assert!(matches!(server_step(FastMessage::TaskResponse(resp)), ServerStep::Skip));
}

#[test]
fn agent_outcome_becomes_reply() {
    let ok = reply_for_outcome(Ok(TaskResponse::completed("id-9", Message::agent("echo: hello"))));
    match ok {
        FastMessage::TaskResponse(r) => {
            assert_eq!(r.id, "id-9");
            assert_eq!(r.status.state, TaskState::Completed);
        }
        other => panic!("unexpected {other:?}"),
    }
    match reply_for_outcome(Err(AgentError::Internal("trigger error".into()))) {
        FastMessage::Error(s) => assert_eq!(s, "agent internal error: trigger error"),
        other => panic!("unexpected {other:?}"),
    }
}

#[test]
fn client_reads_task_reply() {
    let r = task_reply(FastMessage::TaskResponse(TaskResponse::failed("t", "oops"))).unwrap();
    assert_eq!(r.status.state, TaskState::Failed);
    match task_reply(FastMessage::Error("task not found: t".into())) {
        Err(TransportError::Request(s)) => assert_eq!(s, "task not found: t"),
        other => panic!("unexpected {other:?}"),
    }
    match task_reply(FastMessage::Pong) {
        Err(TransportError::Request(s)) => assert_eq!(s, "unexpected response: Pong"),
        other => panic!("unexpected {other:?}"),
    }
    assert!(is_pong(&FastMessage::Pong));
    assert!(!is_pong(&FastMessage::Ping));
}

#[test]
fn agent_error_messages() {
    assert_eq!(AgentError::TaskNotFound("a".into()).message(), "task not found: a");
    assert_eq!(AgentError::InvalidRequest("b".into()).message(), "invalid request: b");
    assert_eq!(AgentError::Internal("c".into()).message(), "agent internal error: c");
    assert_eq!(AgentError::Canceled("d".into()).message(), "task canceled: d");
    assert_eq!(AgentError::Unsupported("e".into()).message(), "unsupported operation: e");
    assert_eq!(AgentError::Other("f".into()).message(), "f");
}

#[test]
fn cancel_defaults_to_canceled() {
    let s = canceled_status();
    assert_eq!(s.state, TaskState::Canceled);
    assert!(s.message.is_none());
    assert!(s.timestamp.is_none());
}

#[test]
fn middlewares_run_in_insertion_order() {
    let stack = MiddlewareStack::new("agent").with("outer").with("inner");
    assert_eq!(stack.depth(), 2);
    assert_eq!(stack.layer_at(0), Layer::Middleware(0));
    assert_eq!(*stack.middleware(0), "outer");
    assert_eq!(stack.layer_at(1), Layer::Middleware(1));
    assert_eq!(*stack.middleware(1), "inner");
    assert_eq!(stack.layer_at(2), Layer::Agent);
    assert_eq!(*stack.agent(), "agent");
    let bare: MiddlewareStack<&str, &str> = MiddlewareStack::new("a");
    assert_eq!(bare.layer_at(0), Layer::Agent);
}

#[test]
fn serve_plans_transports() {
    let none: ServerBuilder<&str, ()> = serve("agent");
    assert_eq!(none.transports().unwrap_err(), "no transports configured \u{2014} call .fast() and/or .http()");
    let both: ServerBuilder<&str, ()> = serve("agent").http("127.0.0.1:3000").fast("/tmp/a.sock");
    assert_eq!(both.transports().unwrap(), vec![TransportContext::Fast, TransportContext::A2a]);
    assert_eq!(both.fast_path().map(|s| s.as_str()), Some("/tmp/a.sock"));
    assert_eq!(both.http_addr().map(|s| s.as_str()), Some("127.0.0.1:3000"));
    assert_eq!(both.logging_for(TransportContext::Fast), None);
    let http_only: ServerBuilder<&str, ()> = serve("agent").http("0.0.0.0:80");
    assert_eq!(http_only.transports().unwrap(), vec![TransportContext::A2a]);
    let logged: ServerBuilder<&str, u8> = serve("agent").fast("/s").with_transport_logger(3);
    assert_eq!(logged.logging_for(TransportContext::Fast), Some(TransportKind::Fast));
    assert_eq!(logged.logging_for(TransportContext::A2a), Some(TransportKind::A2a));
    assert_eq!(logged.logger(), Some(&3));
    assert_eq!(*logged.agent(), "agent");
    assert_eq!(transport_kind(TransportContext::A2a), TransportKind::A2a);
}

#[test]
fn client_prefers_fast_transport() {
    assert_eq!(client_transport(true, true).unwrap(), TransportContext::Fast);
    assert_eq!(client_transport(true, false).unwrap(), TransportContext::Fast);
    assert_eq!(client_transport(false, true).unwrap(), TransportContext::A2a);
    match client_transport(false, false) {
        Err(TransportError::Connection(m)) => assert_eq!(m, "no transport configured"),
        other => panic!("unexpected {other:?}"),
    }
}

#[test]
fn metadata_map_semantics() {
    let mut m = Metadata::new();
    assert_eq!(m.len(), 0);
    m.insert("a".into(), "1".into());
    m.insert("b".into(), "2".into());
    m.insert("a".into(), "3".into());
    assert_eq!(m.len(), 2);
    assert_eq!(m.get("a").map(|s| s.as_str()), Some("3"));
    assert_eq!(m.get("b").map(|s| s.as_str()), Some("2"));
    assert!(m.get("c").is_none());
    let c = m.clone();
    assert_eq!(c.get("a").map(|s| s.as_str()), Some("3"));
    assert_eq!(c.entries().len(), 2);
}

#[test]
fn number_text() {
    let mut s = String::from("n=");
    push_decimal(&mut s, 0);
    push_decimal(&mut s, 1234567890);
    assert_eq!(s, "n=01234567890");
    let mut t = String::new();
    push_signed_decimal(&mut t, -32601);
    push_signed_decimal(&mut t, i64::MIN);
    assert_eq!(t, "-32601-9223372036854775808");
    let mut p = String::new();
    push_zero_padded(&mut p, 42, 6);
    push_zero_padded(&mut p, 1234, 2);
    assert_eq!(p, "0000421234");
    assert!(str_eq("abc", "abc"));
    assert!(!str_eq("abc", "abd"));
}

#[test]
fn parse_u64_matches_std() {
    for s in ["0", "42", "+7", "007", "18446744073709551615", "18446744073709551616", "", "+", "-1", "1a", " 1", "١"] {
        assert_eq!(parse_u64(s), s.parse::<u64>().ok(), "input {s:?}");
    }
}

#[test]
fn agent_error_reaches_client() {
    let reply = reply_for_outcome(Err(AgentError::Internal("trigger error".into())));
    match task_reply(reply) {
        Err(TransportError::Request(s)) => assert_eq!(s, "agent internal error: trigger error"),
        other => panic!("expected an error from the failing agent, got {other:?}"),
    }
    let ok = reply_for_outcome(Ok(TaskResponse::completed("custom-id-42", Message::agent("echo: ping"))));
    let resp = task_reply(ok).unwrap();
    assert_eq!(resp.id, "custom-id-42");
    assert_eq!(resp.status.message.unwrap().text_content(), Some("echo: ping"));
}

#[test]
fn decimal_text_parses_back() {
    for n in [0u64, 9, 10, 4096, u64::MAX] {
        let mut s = String::new();
        push_decimal(&mut s, n as u128);
        assert_eq!(parse_u64(&s), Some(n));
    }
}
