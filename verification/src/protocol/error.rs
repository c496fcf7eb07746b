//! Error types of agents, codecs and transports.

use vstd::prelude::*;

verus! {

#[verifier::external_type_specification]
#[verifier::external_body]
pub struct ExIoError(std::io::Error);

#[verifier::external_type_specification]
#[verifier::external_body]
pub struct ExJsonError(serde_json::Error);

#[verifier::external_type_specification]
#[verifier::external_body]
pub struct ExBincodeErrorKind(bincode::ErrorKind);

/// Failure reported by an agent while handling a task.
#[non_exhaustive]
#[derive(Debug)]
pub enum AgentError {
    /// The task id is unknown to the agent.
    TaskNotFound(String),
    /// The request was malformed or unsupported in its content.
    InvalidRequest(String),
    /// The agent failed internally.
    Internal(String),
    /// The task was canceled.
    Canceled(String),
    /// The operation is not supported by the agent.
    Unsupported(String),
    /// Any other error, carried by its message.
    Other(String),
}

/// The human-readable message of an [`AgentError`].
pub open spec fn agent_error_text(e: AgentError) -> Seq<char> {
    match e {
        AgentError::TaskNotFound(s) => "task not found: "@ + s@,
        AgentError::InvalidRequest(s) => "invalid request: "@ + s@,
        AgentError::Internal(s) => "agent internal error: "@ + s@,
        AgentError::Canceled(s) => "task canceled: "@ + s@,
        AgentError::Unsupported(s) => "unsupported operation: "@ + s@,
        AgentError::Other(s) => s@,
    }
}

impl AgentError {
    /// The human-readable message of this error.
    pub fn message(&self) -> (s: String)
        ensures
            s@ == agent_error_text(*self),
    {
        let (prefix, detail) = match self {
            AgentError::TaskNotFound(s) => ("task not found: ", s),
            AgentError::InvalidRequest(s) => ("invalid request: ", s),
            AgentError::Internal(s) => ("agent internal error: ", s),
            AgentError::Canceled(s) => ("task canceled: ", s),
            AgentError::Unsupported(s) => ("unsupported operation: ", s),
            AgentError::Other(s) => {
                return s.clone();
            },
        };
        let mut out = String::from_str(prefix);
        out.append(detail.as_str());
        out
    }
}

/// Failure while encoding or decoding wire data.
#[non_exhaustive]
#[derive(Debug)]
pub enum CodecError {
    /// JSON (de)serialization failed.
    Json(serde_json::Error),
    /// Binary (de)serialization failed.
    Bincode(Box<bincode::ErrorKind>),
    /// A frame violates the framing rules.
    InvalidFrame(String),
    /// An I/O operation failed.
    Io(std::io::Error),
}

/// Failure of a transport operation.
#[non_exhaustive]
#[derive(Debug)]
pub enum TransportError {
    /// The connection could not be made or was lost.
    Connection(String),
    /// No agent of that name is registered.
    AgentNotFound(String),
    /// An I/O operation failed.
    Io(std::io::Error),
    /// Encoding or decoding failed.
    Codec(CodecError),
    /// The agent reported a failure.
    Agent(AgentError),
    /// The request failed or the reply was unusable.
    Request(String),
    /// The operation timed out.
    Timeout,
}

/// `text` begins with `lead`.
pub open spec fn has_prefix(text: Seq<char>, lead: Seq<char>) -> bool {
    lead.len() <= text.len() && text.take(lead.len() as int) == lead
}

/// `io::Error`'s `Display` text. It comes from the operating system's
/// message for the error, so nothing is stated of it.
#[verifier::external_body]
fn io_error_text(e: &std::io::Error) -> (s: String) {
    e.to_string()
}

/// `serde_json::Error`'s `Display` text; the error's content is not
/// visible here, so nothing is stated of it.
#[verifier::external_body]
fn json_error_text(e: &serde_json::Error) -> (s: String) {
    e.to_string()
}

/// `bincode::ErrorKind`'s `Display` text; the error's content is not
/// visible here, so nothing is stated of it.
#[verifier::external_body]
fn bincode_error_text(e: &bincode::ErrorKind) -> (s: String) {
    e.to_string()
}

/// `text` is the human-readable description of `e`: a fixed lead per kind,
/// followed by the frame's complaint, or by the underlying library's own
/// message for JSON, binary and I/O failures.
pub open spec fn describes_codec_error(e: CodecError, text: Seq<char>) -> bool {
    match e {
        CodecError::Json(_) => has_prefix(text, "JSON serialization error: "@),
        CodecError::Bincode(_) => has_prefix(text, "binary serialization error: "@),
        CodecError::InvalidFrame(s) => text == "invalid frame: "@ + s@,
        CodecError::Io(_) => has_prefix(text, "IO error: "@),
    }
}

/// `text` is the human-readable description of `e`.
pub open spec fn describes_transport_error(e: TransportError, text: Seq<char>) -> bool {
    match e {
        TransportError::Connection(s) => text == "connection error: "@ + s@,
        TransportError::AgentNotFound(s) => text == "agent not found: "@ + s@,
        TransportError::Io(_) => has_prefix(text, "IO error: "@),
        TransportError::Codec(c) => has_prefix(text, "codec error: "@) && describes_codec_error(
            c,
            text.skip("codec error: "@.len() as int),
        ),
        TransportError::Agent(a) => text == "agent error: "@ + agent_error_text(a),
        TransportError::Request(s) => text == "request error: "@ + s@,
        TransportError::Timeout => text == "timeout"@,
    }
}

fn led(lead: &str, detail: &str) -> (s: String)
    ensures
        s@ == lead@ + detail@,
{
    let mut s = String::from_str(lead);
    s.append(detail);
    s
}

proof fn lemma_led_prefix(lead: Seq<char>, detail: Seq<char>)
    ensures
        has_prefix(lead + detail, lead),
        (lead + detail).skip(lead.len() as int) == detail,
{
    assert((lead + detail).take(lead.len() as int) =~= lead);
    assert((lead + detail).skip(lead.len() as int) =~= detail);
}

/// The human-readable description of `e`.
pub fn codec_error_text(e: &CodecError) -> (s: String)
    ensures
        describes_codec_error(*e, s@),
{
    let (lead, detail) = match e {
        CodecError::Json(j) => ("JSON serialization error: ", json_error_text(j)),
        CodecError::Bincode(b) => ("binary serialization error: ", bincode_error_text(&**b)),
        CodecError::InvalidFrame(m) => ("invalid frame: ", m.clone()),
        CodecError::Io(io) => ("IO error: ", io_error_text(io)),
    };
    let s = led(lead, detail.as_str());
    proof {
        lemma_led_prefix(lead@, detail@);
    }
    s
}

/// The human-readable description of `e`.
pub fn transport_error_text(e: &TransportError) -> (s: String)
    ensures
        describes_transport_error(*e, s@),
{
    match e {
        TransportError::Connection(m) => led("connection error: ", m.as_str()),
        TransportError::AgentNotFound(m) => led("agent not found: ", m.as_str()),
        TransportError::Io(io) => {
            let detail = io_error_text(io);
            let s = led("IO error: ", detail.as_str());
            proof {
                lemma_led_prefix("IO error: "@, detail@);
            }
            s
        },
        TransportError::Codec(c) => {
            let detail = codec_error_text(c);
            let s = led("codec error: ", detail.as_str());
            proof {
                lemma_led_prefix("codec error: "@, detail@);
            }
            s
        },
        TransportError::Agent(a) => {
            let detail = a.message();
            led("agent error: ", detail.as_str())
        },
        TransportError::Request(m) => led("request error: ", m.as_str()),
        TransportError::Timeout => String::from_str("timeout"),
    }
}

} // verus!
