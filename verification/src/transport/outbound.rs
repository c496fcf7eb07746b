//! What a client reports of each task it sends: the outcome it hands back
//! and the audit entry it records. Every send that reaches a transport
//! yields exactly one entry, failures included, and the entry's status is
//! `"ok"` exactly when the outcome is.

use vstd::prelude::*;

use crate::protocol::error::{describes_transport_error, transport_error_text, CodecError, TransportError};
use crate::protocol::types::TaskResponse;
use crate::transport::fast::codec::FastMessage;
use crate::transport::fast::exchange::task_reply;
use crate::transport::log::{llm_timing_fits, llm_us_of, outbound_log_entry, Direction, LogEntry, TransportKind};

verus! {

/// The error an outcome ended in, if it failed.
pub open spec fn failure_of<T>(r: Result<T, TransportError>) -> Option<TransportError> {
    match r {
        Ok(_) => None,
        Err(e) => Some(e),
    }
}

/// The response an outcome carries, if it succeeded.
pub open spec fn ok_response(r: Result<TaskResponse, TransportError>) -> Option<TaskResponse> {
    match r {
        Ok(resp) => Some(resp),
        Err(_) => None,
    }
}

/// The response a fast exchange got back, if the reply was one.
pub open spec fn reply_response(r: Result<FastMessage, TransportError>) -> Option<TaskResponse> {
    match r {
        Ok(FastMessage::TaskResponse(resp)) => Some(resp),
        _ => None,
    }
}

/// The model time that `response` reports, if any, fits in a `u64`.
pub open spec fn timing_fits(response: Option<TaskResponse>) -> bool {
    match response {
        Some(r) => match r.metadata {
            Some(m) => llm_timing_fits(m@),
            None => true,
        },
        None => true,
    }
}

/// The model time, in microseconds, that `response` reports.
pub open spec fn reported_llm_us(response: Option<TaskResponse>) -> Option<u64> {
    match response {
        Some(r) => match r.metadata {
            Some(m) => match llm_us_of(m@) {
                Some(v) => Some(v as u64),
                None => None,
            },
            None => None,
        },
        None => None,
    }
}

/// `e` records one outbound send of task `task_id` (session `session_id`)
/// over `transport` that took `duration_us`, got back `response` (if any)
/// and ended in `failure` (if any).
pub open spec fn records_outbound(
    e: LogEntry,
    ts: String,
    transport: TransportKind,
    task_id: String,
    session_id: Option<String>,
    duration_us: u64,
    response: Option<TaskResponse>,
    failure: Option<TransportError>,
) -> bool {
    &&& e.ts == ts
    &&& e.transport == transport
    &&& e.direction == Direction::Outbound
    &&& e.task_id == task_id
    &&& e.session_id == session_id
    &&& e.duration_us == duration_us
    &&& e.llm_us == reported_llm_us(response)
    &&& e.transport_us == (match e.llm_us {
        Some(l) => Some(if duration_us >= l { (duration_us - l) as u64 } else { 0u64 }),
        None => None,
    })
    &&& match failure {
        None => e.status@ == "ok"@ && e.error is None,
        Some(err) => e.status@ == "error"@ && (e.error matches Some(t) && describes_transport_error(err, t@)),
    }
    &&& e.payload_bytes is None
}

fn message_entry(
    ts: String,
    transport: TransportKind,
    task_id: String,
    session_id: Option<String>,
    duration_us: u64,
    result: &Result<FastMessage, TransportError>,
) -> (e: LogEntry)
    requires
        timing_fits(reply_response(*result)),
    ensures
        records_outbound(e, ts, transport, task_id, session_id, duration_us, reply_response(*result), failure_of(*result)),
{
    let outcome: Result<Option<&TaskResponse>, String> = match result {
        Ok(FastMessage::TaskResponse(r)) => Ok(Some(r)),
        Ok(_) => Ok(None),
        Err(err) => Err(transport_error_text(err)),
    };
    outbound_log_entry(ts, transport, task_id, session_id, duration_us, outcome)
}

fn response_entry(
    ts: String,
    transport: TransportKind,
    task_id: String,
    session_id: Option<String>,
    duration_us: u64,
    result: &Result<TaskResponse, TransportError>,
) -> (e: LogEntry)
    requires
        timing_fits(ok_response(*result)),
    ensures
        records_outbound(e, ts, transport, task_id, session_id, duration_us, ok_response(*result), failure_of(*result)),
{
    let outcome: Result<Option<&TaskResponse>, String> = match result {
        Ok(r) => Ok(Some(r)),
        Err(err) => Err(transport_error_text(err)),
    };
    outbound_log_entry(ts, transport, task_id, session_id, duration_us, outcome)
}

/// The outcome of a fast client's send of one task: `sent` is how writing
/// the request went, `reply` the next frame read after it (`None` at the
/// end of the stream).
pub fn fast_send_result(sent: Result<(), CodecError>, reply: Option<Result<FastMessage, CodecError>>) -> (r:
    Result<FastMessage, TransportError>)
    ensures
        sent matches Err(e) ==> (r matches Err(TransportError::Codec(c)) && c == e),
        sent is Ok ==> match reply {
            Some(Ok(m)) => r == Ok::<FastMessage, TransportError>(m),
            Some(Err(e)) => r matches Err(TransportError::Codec(c)) && c == e,
            None => r matches Err(TransportError::Connection(s)) && s@ == "connection closed"@,
        },
{
    match sent {
        Err(e) => Err(TransportError::Codec(e)),
        Ok(()) => match reply {
            Some(Ok(m)) => Ok(m),
            Some(Err(e)) => Err(TransportError::Codec(e)),
            None => Err(TransportError::Connection(String::from_str("connection closed"))),
        },
    }
}

/// A fast client's send of one task: `sent` is how writing the request
/// went, `reply` the next frame read after it (`None` at the end of the
/// stream). Returns the outcome (the reply, or why there is none) and the
/// entry recording it.
pub fn fast_send_step(
    ts: String,
    task_id: String,
    session_id: Option<String>,
    duration_us: u64,
    sent: Result<(), CodecError>,
    reply: Option<Result<FastMessage, CodecError>>,
) -> (out: (Result<FastMessage, TransportError>, LogEntry))
    requires
        sent is Ok ==> (match reply {
            Some(Ok(FastMessage::TaskResponse(r))) => timing_fits(Some(r)),
            _ => true,
        }),
    ensures
        sent matches Err(e) ==> (out.0 matches Err(TransportError::Codec(c)) && c == e),
        sent is Ok ==> match reply {
            Some(Ok(m)) => out.0 == Ok::<FastMessage, TransportError>(m),
            Some(Err(e)) => out.0 matches Err(TransportError::Codec(c)) && c == e,
            None => out.0 matches Err(TransportError::Connection(s)) && s@ == "connection closed"@,
        },
        records_outbound(
            out.1,
            ts,
            TransportKind::Fast,
            task_id,
            session_id,
            duration_us,
            reply_response(out.0),
            failure_of(out.0),
        ),
{
    let result = fast_send_result(sent, reply);
    let entry = message_entry(ts, TransportKind::Fast, task_id, session_id, duration_us, &result);
    (result, entry)
}

/// The outcome of a router's dispatch of one task to a fast endpoint:
/// `exchange` is the connection's failure or the message the agent
/// answered with.
pub fn fast_dispatch_result(exchange: Result<FastMessage, TransportError>) -> (r: Result<TaskResponse, TransportError>)
    ensures
        exchange matches Err(e) ==> r == Err::<TaskResponse, TransportError>(e),
        exchange matches Ok(FastMessage::TaskResponse(resp)) ==> r == Ok::<TaskResponse, TransportError>(resp),
        exchange matches Ok(FastMessage::Error(s)) ==> (r matches Err(TransportError::Request(t)) && t == s),
        exchange matches Ok(FastMessage::Ping) ==> (r matches Err(TransportError::Request(t)) && t@
            == "unexpected response: Ping"@),
        exchange matches Ok(FastMessage::Pong) ==> (r matches Err(TransportError::Request(t)) && t@
            == "unexpected response: Pong"@),
        exchange matches Ok(FastMessage::TaskRequest(_)) ==> (r matches Err(TransportError::Request(t))
            && t@.take("unexpected response: "@.len() as int) == "unexpected response: "@),
{
    match exchange {
        Ok(msg) => task_reply(msg),
        Err(e) => Err(e),
    }
}

/// A router's dispatch of one task to a fast endpoint: `exchange` is the
/// connection's failure or the message the agent answered with. Returns
/// the outcome (the response, the agent's error, or a request error for
/// any other message) and the entry recording it.
pub fn fast_dispatch_step(
    ts: String,
    task_id: String,
    session_id: Option<String>,
    duration_us: u64,
    exchange: Result<FastMessage, TransportError>,
) -> (out: (Result<TaskResponse, TransportError>, LogEntry))
    requires
        timing_fits(reply_response(exchange)),
    ensures
        exchange matches Err(e) ==> out.0 == Err::<TaskResponse, TransportError>(e),
        exchange matches Ok(FastMessage::TaskResponse(r)) ==> out.0 == Ok::<TaskResponse, TransportError>(r),
        exchange matches Ok(FastMessage::Error(s)) ==> (out.0 matches Err(TransportError::Request(t)) && t == s),
        exchange matches Ok(FastMessage::Ping) ==> (out.0 matches Err(TransportError::Request(t)) && t@
            == "unexpected response: Ping"@),
        exchange matches Ok(FastMessage::Pong) ==> (out.0 matches Err(TransportError::Request(t)) && t@
            == "unexpected response: Pong"@),
        exchange matches Ok(FastMessage::TaskRequest(_)) ==> (out.0 matches Err(TransportError::Request(t))
            && t@.take("unexpected response: "@.len() as int) == "unexpected response: "@),
        records_outbound(
            out.1,
            ts,
            TransportKind::Fast,
            task_id,
            session_id,
            duration_us,
            ok_response(out.0),
            failure_of(out.0),
        ),
{
    let result = fast_dispatch_result(exchange);
    let entry = response_entry(ts, TransportKind::Fast, task_id, session_id, duration_us, &result);
    (result, entry)
}

/// A dispatch of one task over `transport` that ended in `result`: the
/// same outcome, and the entry recording it.
pub fn dispatch_step(
    ts: String,
    transport: TransportKind,
    task_id: String,
    session_id: Option<String>,
    duration_us: u64,
    result: Result<TaskResponse, TransportError>,
) -> (out: (Result<TaskResponse, TransportError>, LogEntry))
    requires
        timing_fits(ok_response(result)),
    ensures
        out.0 == result,
        records_outbound(out.1, ts, transport, task_id, session_id, duration_us, ok_response(result), failure_of(result)),
{
    let entry = response_entry(ts, transport, task_id, session_id, duration_us, &result);
    (result, entry)
}

} // verus!
