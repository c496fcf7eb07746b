//! What the fast transport's server and clients do with each message.

use vstd::prelude::*;

use crate::protocol::error::{agent_error_text, AgentError, TransportError};
use crate::protocol::types::{TaskRequest, TaskResponse};
use crate::transport::fast::codec::FastMessage;

verus! {

/// What the server does with a message read from a connection.
#[derive(Debug)]
pub enum ServerStep {
    /// Send this message back.
    Reply(FastMessage),
    /// Hand the task to the agent and send back [`reply_for_outcome`] of
    /// what it returns.
    Handle(TaskRequest),
    /// Ignore the message.
    Skip,
}

/// The server's handling of `msg`: answer a ping with a pong, hand a task
/// to the agent, and ignore responses, pongs and errors.
pub fn server_step(msg: FastMessage) -> (step: ServerStep)
    ensures
        msg matches FastMessage::Ping ==> step matches ServerStep::Reply(FastMessage::Pong),
        msg matches FastMessage::TaskRequest(req) ==> step == ServerStep::Handle(req),
        (msg matches FastMessage::Pong || msg matches FastMessage::TaskResponse(_)
            || msg matches FastMessage::Error(_)) ==> (step matches ServerStep::Skip),
{
    match msg {
        FastMessage::Ping => ServerStep::Reply(FastMessage::Pong),
        FastMessage::TaskRequest(req) => ServerStep::Handle(req),
        FastMessage::Pong | FastMessage::TaskResponse(_) | FastMessage::Error(_) => ServerStep::Skip,
    }
}

/// The message the server sends back for the agent's answer to a task:
/// the response, or the error's message.
pub fn reply_for_outcome(outcome: Result<TaskResponse, AgentError>) -> (m: FastMessage)
    ensures
        outcome matches Ok(resp) ==> m == FastMessage::TaskResponse(resp),
        outcome matches Err(e) ==> m matches FastMessage::Error(text) && text@ == agent_error_text(e),
{
    match outcome {
        Ok(resp) => FastMessage::TaskResponse(resp),
        Err(e) => FastMessage::Error(e.message()),
    }
}

/// Whether the reply to a ping is a pong.
pub fn is_pong(reply: &FastMessage) -> (r: bool)
    ensures
        r <==> reply matches FastMessage::Pong,
{
    match reply {
        FastMessage::Pong => true,
        _ => false,
    }
}

/// `format!("{msg:?}")`: the derived `Debug` rendering of `msg`. Nothing is
/// stated of it; it serves only as a description in error messages.
#[verifier::external_body]
fn debug_text(msg: &FastMessage) -> (s: String) {
    format!("{msg:?}")
}

/// The description of an unexpected reply `msg`: a fixed lead followed by
/// the message's `Debug` rendering, which is the variant's name for `Ping`
/// and `Pong`.
fn unexpected_response_text(msg: &FastMessage) -> (s: String)
    ensures
        s@.len() >= "unexpected response: "@.len(),
        s@.take("unexpected response: "@.len() as int) == "unexpected response: "@,
        *msg matches FastMessage::Ping ==> s@ == "unexpected response: Ping"@,
        *msg matches FastMessage::Pong ==> s@ == "unexpected response: Pong"@,
{
    match msg {
        FastMessage::Ping => {
            let s = String::from_str("unexpected response: Ping");
            proof {
                reveal_strlit("unexpected response: Ping");
                reveal_strlit("unexpected response: ");
                assert(s@.take("unexpected response: "@.len() as int) =~= "unexpected response: "@);
            }
            s
        },
        FastMessage::Pong => {
            let s = String::from_str("unexpected response: Pong");
            proof {
                reveal_strlit("unexpected response: Pong");
                reveal_strlit("unexpected response: ");
                assert(s@.take("unexpected response: "@.len() as int) =~= "unexpected response: "@);
            }
            s
        },
        _ => {
            let detail = debug_text(msg);
            let mut s = String::from_str("unexpected response: ");
            let ghost lead = s@;
            s.append(detail.as_str());
            assert(s@.take(lead.len() as int) =~= lead);
            s
        },
    }
}

/// What a client makes of the reply to a task it sent: the response, the
/// agent's error as a request error, or a request error for any other
/// message.
pub fn task_reply(reply: FastMessage) -> (r: Result<TaskResponse, TransportError>)
    ensures
        reply matches FastMessage::TaskResponse(resp) ==> r == Ok::<TaskResponse, TransportError>(resp),
        reply matches FastMessage::Error(e) ==> r matches Err(TransportError::Request(s)) && s == e,
        reply matches FastMessage::Ping ==> (r matches Err(TransportError::Request(s)) && s@
            == "unexpected response: Ping"@),
        reply matches FastMessage::Pong ==> (r matches Err(TransportError::Request(s)) && s@
            == "unexpected response: Pong"@),
        reply matches FastMessage::TaskRequest(_) ==> (r matches Err(TransportError::Request(s))
            && s@.take("unexpected response: "@.len() as int) == "unexpected response: "@),
{
    match reply {
        FastMessage::TaskResponse(resp) => Ok(resp),
        FastMessage::Error(e) => Err(TransportError::Request(e)),
        other => Err(TransportError::Request(unexpected_response_text(&other))),
    }
}

} // verus!
