//! JSON-RPC 2.0 envelopes for A2A compatibility, the server's routing of a
//! request to a handler, its error replies, and the client's reading of a
//! reply.

use vstd::prelude::*;

use crate::protocol::error::{agent_error_text, AgentError, TransportError};
use crate::text::{push_signed_decimal, signed_decimal};

verus! {

#[verifier::external_type_specification]
#[verifier::external_body]
pub struct ExJsonValue(serde_json::Value);

/// Protocol version carried by every envelope.
pub const JSONRPC_VERSION: &'static str = "2.0";

/// A2A method: send a task.
pub const METHOD_TASKS_SEND: &'static str = "tasks/send";

/// A2A method: get a task.
pub const METHOD_TASKS_GET: &'static str = "tasks/get";

/// A2A method: cancel a task.
pub const METHOD_TASKS_CANCEL: &'static str = "tasks/cancel";

/// A2A method: fetch the agent card.
pub const METHOD_AGENT_CARD: &'static str = "agent/authenticatedExtendedCard";

/// Invalid JSON was received.
pub const PARSE_ERROR: i64 = -32700;

/// The JSON sent is not a valid request object.
pub const INVALID_REQUEST: i64 = -32600;

/// The method does not exist.
pub const METHOD_NOT_FOUND: i64 = -32601;

/// Invalid method parameters.
pub const INVALID_PARAMS: i64 = -32602;

/// Internal JSON-RPC error.
pub const INTERNAL_ERROR: i64 = -32603;

/// A2A: the task does not exist.
pub const TASK_NOT_FOUND: i64 = -32001;

/// A2A: the task cannot be canceled.
pub const TASK_NOT_CANCELABLE: i64 = -32002;

/// A JSON-RPC request envelope.
#[derive(Debug)]
pub struct JsonRpcRequest {
    /// Protocol version, `"2.0"`.
    pub jsonrpc: String,
    /// Method name.
    pub method: String,
    /// Parameters, if any.
    pub params: Option<serde_json::Value>,
    /// Request id, echoed in the response.
    pub id: serde_json::Value,
}

/// A JSON-RPC response envelope.
#[derive(Debug)]
pub struct JsonRpcResponse {
    /// Protocol version, `"2.0"`.
    pub jsonrpc: String,
    /// Result on success.
    pub result: Option<serde_json::Value>,
    /// Error on failure.
    pub error: Option<JsonRpcError>,
    /// Id of the request answered.
    pub id: serde_json::Value,
}

/// A JSON-RPC error object.
#[derive(Debug)]
pub struct JsonRpcError {
    /// Error code.
    pub code: i64,
    /// Short description.
    pub message: String,
    /// Additional information, if any.
    pub data: Option<serde_json::Value>,
}

/// The JSON number `n`, as serde_json builds it from an `i64`.
pub uninterp spec fn json_integer(n: i64) -> serde_json::Value;

/// `serde_json::Value::from(n)`: the JSON number `n`.
#[verifier::external_body]
fn json_integer_value(n: i64) -> (v: serde_json::Value)
    ensures
        v == json_integer(n),
{
    serde_json::Value::from(n)
}

impl JsonRpcRequest {
    /// A version 2.0 request for `method` with `params` and id 1.
    pub fn new(method: &str, params: serde_json::Value) -> (r: Self)
        ensures
            r.jsonrpc@ == JSONRPC_VERSION@,
            r.method@ == method@,
            r.params == Some(params),
            r.id == json_integer(1),
    {
        JsonRpcRequest {
            jsonrpc: String::from_str(JSONRPC_VERSION),
            method: String::from_str(method),
            params: Some(params),
            id: json_integer_value(1),
        }
    }
}

/// `r` is a version 2.0 error response to `id` with `code` and `message`.
pub open spec fn is_error_response(r: JsonRpcResponse, id: serde_json::Value, code: i64, message: Seq<char>) -> bool {
    &&& r.jsonrpc@ == JSONRPC_VERSION@
    &&& r.result is None
    &&& r.error matches Some(e) && e.code == code && e.message@ == message && e.data is None
    &&& r.id == id
}

impl JsonRpcResponse {
    /// A version 2.0 success response to `id` carrying `result`.
    pub fn success(id: serde_json::Value, result: serde_json::Value) -> (r: Self)
        ensures
            r.jsonrpc@ == JSONRPC_VERSION@,
            r.result == Some(result),
            r.error is None,
            r.id == id,
    {
        JsonRpcResponse { jsonrpc: String::from_str(JSONRPC_VERSION), result: Some(result), error: None, id }
    }

    /// A version 2.0 error response to `id` with `code` and `message`.
    pub fn error(id: serde_json::Value, code: i64, message: &str) -> (r: Self)
        ensures
            is_error_response(r, id, code, message@),
    {
        JsonRpcResponse {
            jsonrpc: String::from_str(JSONRPC_VERSION),
            result: None,
            error: Some(JsonRpcError { code, message: String::from_str(message), data: None }),
            id,
        }
    }
}

// ---------------------------------------------------------------------------
// Server side
// ---------------------------------------------------------------------------

/// Which handler answers a request.
#[derive(Debug, Clone, Copy, PartialEq, Eq, Structural)]
pub enum RpcRoute {
    /// The request is not version 2.0.
    InvalidVersion,
    /// `tasks/send`.
    TasksSend,
    /// `tasks/get`.
    TasksGet,
    /// `tasks/cancel`.
    TasksCancel,
    /// `agent/authenticatedExtendedCard`.
    AgentCard,
    /// Any other method.
    MethodNotFound,
}

/// The handler for a request with version `version` and method `method`.
pub open spec fn rpc_route(version: Seq<char>, method: Seq<char>) -> RpcRoute {
    if version != JSONRPC_VERSION@ {
        RpcRoute::InvalidVersion
    } else if method == METHOD_TASKS_SEND@ {
        RpcRoute::TasksSend
    } else if method == METHOD_TASKS_GET@ {
        RpcRoute::TasksGet
    } else if method == METHOD_TASKS_CANCEL@ {
        RpcRoute::TasksCancel
    } else if method == METHOD_AGENT_CARD@ {
        RpcRoute::AgentCard
    } else {
        RpcRoute::MethodNotFound
    }
}

/// Chooses the handler for `request`: its version is checked first, then
/// its method.
pub fn route_request(request: &JsonRpcRequest) -> (r: RpcRoute)
    ensures
        r == rpc_route(request.jsonrpc@, request.method@),
{
    let method = request.method.as_str();
    if !crate::text::str_eq(request.jsonrpc.as_str(), JSONRPC_VERSION) {
        RpcRoute::InvalidVersion
    } else if crate::text::str_eq(method, METHOD_TASKS_SEND) {
        RpcRoute::TasksSend
    } else if crate::text::str_eq(method, METHOD_TASKS_GET) {
        RpcRoute::TasksGet
    } else if crate::text::str_eq(method, METHOD_TASKS_CANCEL) {
        RpcRoute::TasksCancel
    } else if crate::text::str_eq(method, METHOD_AGENT_CARD) {
        RpcRoute::AgentCard
    } else {
        RpcRoute::MethodNotFound
    }
}

fn prefixed(prefix: &str, detail: &str) -> (s: String)
    ensures
        s@ == prefix@ + detail@,
{
    let mut s = String::from_str(prefix);
    s.append(detail);
    s
}

/// Reply to a request whose version is not 2.0.
pub fn invalid_version_response(id: serde_json::Value) -> (r: JsonRpcResponse)
    ensures
        is_error_response(r, id, INVALID_REQUEST, "invalid JSON-RPC version"@),
{
    JsonRpcResponse::error(id, INVALID_REQUEST, "invalid JSON-RPC version")
}

/// Reply to a request for an unknown method.
pub fn method_not_found_response(id: serde_json::Value, method: &str) -> (r: JsonRpcResponse)
    ensures
        is_error_response(r, id, METHOD_NOT_FOUND, "method not found: "@ + method@),
{
    let message = prefixed("method not found: ", method);
    JsonRpcResponse::error(id, METHOD_NOT_FOUND, message.as_str())
}

/// Reply to `tasks/get`: tasks are not stored, so none is ever found.
pub fn tasks_get_response(id: serde_json::Value) -> (r: JsonRpcResponse)
    ensures
        is_error_response(r, id, TASK_NOT_FOUND, "task storage not enabled"@),
{
    JsonRpcResponse::error(id, TASK_NOT_FOUND, "task storage not enabled")
}

/// Reply to `tasks/send` without parameters.
pub fn missing_params_response(id: serde_json::Value) -> (r: JsonRpcResponse)
    ensures
        is_error_response(r, id, INVALID_PARAMS, "missing params"@),
{
    JsonRpcResponse::error(id, INVALID_PARAMS, "missing params")
}

/// Reply to `tasks/send` whose parameters are not a task request;
/// `detail` says why.
pub fn invalid_task_request_response(id: serde_json::Value, detail: &str) -> (r: JsonRpcResponse)
    ensures
        is_error_response(r, id, INVALID_PARAMS, "invalid task request: "@ + detail@),
{
    let message = prefixed("invalid task request: ", detail);
    JsonRpcResponse::error(id, INVALID_PARAMS, message.as_str())
}

/// Reply when the agent fails.
pub fn agent_failure_response(id: serde_json::Value, error: &AgentError) -> (r: JsonRpcResponse)
    ensures
        is_error_response(r, id, INTERNAL_ERROR, agent_error_text(*error)),
{
    let message = error.message();
    JsonRpcResponse::error(id, INTERNAL_ERROR, message.as_str())
}

/// Reply when the result cannot be encoded; `detail` says why.
pub fn serialization_failure_response(id: serde_json::Value, detail: &str) -> (r: JsonRpcResponse)
    ensures
        is_error_response(r, id, INTERNAL_ERROR, "serialization error: "@ + detail@),
{
    let message = prefixed("serialization error: ", detail);
    JsonRpcResponse::error(id, INTERNAL_ERROR, message.as_str())
}

// ---------------------------------------------------------------------------
// Client side
// ---------------------------------------------------------------------------

/// Description of a JSON-RPC error reply with `code` and `message`.
pub open spec fn rpc_error_text(code: i64, message: Seq<char>) -> Seq<char> {
    "JSON-RPC error "@ + signed_decimal(code as int) + ": "@ + message
}

fn rpc_error(e: &JsonRpcError) -> (err: TransportError)
    ensures
        err matches TransportError::Request(s) && s@ == rpc_error_text(e.code, e.message@),
{
    let mut s = String::from_str("JSON-RPC error ");
    push_signed_decimal(&mut s, e.code);
    s.append(": ");
    s.append(e.message.as_str());
    TransportError::Request(s)
}

/// What a client makes of the reply to `tasks/send`: the error it reports,
/// else its result, else an `"empty result"` error.
pub fn rpc_result(response: JsonRpcResponse) -> (r: Result<serde_json::Value, TransportError>)
    ensures
        response.error matches Some(e) ==> (r matches Err(TransportError::Request(s)) && s@ == rpc_error_text(
            e.code,
            e.message@,
        )),
        response.error is None ==> match response.result {
            Some(v) => r == Ok::<serde_json::Value, TransportError>(v),
            None => r matches Err(TransportError::Request(s)) && s@ == "empty result"@,
        },
{
    match &response.error {
        Some(e) => {
            return Err(rpc_error(e));
        },
        None => {},
    }
    match response.result {
        Some(v) => Ok(v),
        None => Err(TransportError::Request(String::from_str("empty result"))),
    }
}

/// What a client makes of the reply to `tasks/cancel`: the error it
/// reports, or success.
pub fn cancel_outcome(response: &JsonRpcResponse) -> (r: Result<(), TransportError>)
    ensures
        response.error matches Some(e) ==> (r matches Err(TransportError::Request(s)) && s@ == rpc_error_text(
            e.code,
            e.message@,
        )),
        response.error is None ==> r is Ok,
{
    match &response.error {
        Some(e) => Err(rpc_error(e)),
        None => Ok(()),
    }
}

} // verus!
