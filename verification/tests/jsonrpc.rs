//! JSON-RPC envelopes, the server's routing and replies, and the client's
//! reading of a reply.

use messaggero::protocol::error::{AgentError, TransportError};
use messaggero::protocol::jsonrpc::{
    agent_failure_response, cancel_outcome, invalid_task_request_response, invalid_version_response,
    method_not_found_response, missing_params_response, route_request, rpc_result, serialization_failure_response,
    tasks_get_response, JsonRpcRequest, JsonRpcResponse, RpcRoute, INTERNAL_ERROR, INVALID_PARAMS, INVALID_REQUEST,
    METHOD_NOT_FOUND, TASK_NOT_FOUND,
};
use serde_json::Value;

fn json(text: &str) -> Value {
    serde_json::from_str(text).unwrap()
}

#[test]
fn serialize_request() {
    let req = JsonRpcRequest::new("tasks/send", json(r#"{"id": "abc"}"#));
    assert_eq!(req.method, "tasks/send");
    assert_eq!(req.jsonrpc, "2.0");
    assert_eq!(req.params, Some(json(r#"{"id": "abc"}"#)));
    assert_eq!(req.id, Value::from(1));
}

#[test]
fn serialize_error_response() {
    let resp = JsonRpcResponse::error(Value::from(1), METHOD_NOT_FOUND, "not found");
    let err = resp.error.unwrap();
    assert_eq!(err.code, -32601);
    assert_eq!(err.message, "not found");
    assert!(err.data.is_none());
    assert!(resp.result.is_none());
    assert_eq!(resp.jsonrpc, "2.0");
    assert_eq!(resp.id, Value::from(1));
}

#[test]
fn success_response_carries_result() {
    let resp = JsonRpcResponse::success(Value::from("x"), json("[1, 2]"));
    assert_eq!(resp.result, Some(json("[1, 2]")));
    assert!(resp.error.is_none());
    assert_eq!(resp.id, Value::from("x"));
}

fn request(version: &str, method: &str) -> JsonRpcRequest {
    let mut r = JsonRpcRequest::new(method, Value::Null);
    r.jsonrpc = version.to_string();
    r
}

#[test]
fn routing_checks_version_then_method() {
    assert_eq!(route_request(&request("2.0", "tasks/send")), RpcRoute::TasksSend);
    assert_eq!(route_request(&request("2.0", "tasks/get")), RpcRoute::TasksGet);
    assert_eq!(route_request(&request("2.0", "tasks/cancel")), RpcRoute::TasksCancel);
    assert_eq!(route_request(&request("2.0", "agent/authenticatedExtendedCard")), RpcRoute::AgentCard);
    assert_eq!(route_request(&request("2.0", "tasks/list")), RpcRoute::MethodNotFound);
    assert_eq!(route_request(&request("1.0", "tasks/send")), RpcRoute::InvalidVersion);
    assert_eq!(route_request(&request("2.0 ", "tasks/send")), RpcRoute::InvalidVersion);
}

fn error_of(resp: JsonRpcResponse) -> (i64, String) {
    assert!(resp.result.is_none());
    let e = resp.error.unwrap();
    (e.code, e.message)
}

#[test]
fn server_error_replies() {
    let id = Value::from(7);
    assert_eq!(error_of(invalid_version_response(id.clone())), (INVALID_REQUEST, "invalid JSON-RPC version".into()));
    assert_eq!(
        error_of(method_not_found_response(id.clone(), "foo")),
        (METHOD_NOT_FOUND, "method not found: foo".into())
    );
    assert_eq!(error_of(tasks_get_response(id.clone())), (TASK_NOT_FOUND, "task storage not enabled".into()));
    assert_eq!(error_of(missing_params_response(id.clone())), (INVALID_PARAMS, "missing params".into()));
    assert_eq!(
        error_of(invalid_task_request_response(id.clone(), "missing field `id`")),
        (INVALID_PARAMS, "invalid task request: missing field `id`".into())
    );
    assert_eq!(
        error_of(agent_failure_response(id.clone(), &AgentError::Internal("boom".into()))),
        (INTERNAL_ERROR, "agent internal error: boom".into())
    );
    assert_eq!(
        error_of(serialization_failure_response(id.clone(), "bad")),
        (INTERNAL_ERROR, "serialization error: bad".into())
    );
    assert_eq!(tasks_get_response(id.clone()).id, id);
}

#[test]
fn client_reads_result_or_error() {
    let ok = rpc_result(JsonRpcResponse::success(Value::from(1), json(r#"{"a": 1}"#))).unwrap();
    assert_eq!(ok, json(r#"{"a": 1}"#));

    match rpc_result(JsonRpcResponse::error(Value::from(1), -32601, "method not found: x")) {
        Err(TransportError::Request(s)) => assert_eq!(s, "JSON-RPC error -32601: method not found: x"),
        other => panic!("unexpected {other:?}"),
    }

    let mut empty = JsonRpcResponse::success(Value::from(1), Value::Null);
    empty.result = None;
    match rpc_result(empty) {
        Err(TransportError::Request(s)) => assert_eq!(s, "empty result"),
        other => panic!("unexpected {other:?}"),
    }
}

#[test]
fn client_reads_cancel_reply() {
    assert!(cancel_outcome(&JsonRpcResponse::success(Value::from(1), Value::Null)).is_ok());
    match cancel_outcome(&JsonRpcResponse::error(Value::from(1), 42, "nope")) {
        Err(TransportError::Request(s)) => assert_eq!(s, "JSON-RPC error 42: nope"),
        other => panic!("unexpected {other:?}"),
    }
}
