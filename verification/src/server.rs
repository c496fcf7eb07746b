//! Serving an agent on one or more transports, and a client's choice of
//! transport.

use vstd::prelude::*;

use crate::protocol::error::TransportError;
use crate::transport::log::TransportKind;
use crate::transport::router::AgentEndpoint;

verus! {

/// The transport a served agent instance is attached to.
#[derive(Debug, Clone, Copy, PartialEq, Eq, Structural)]
pub enum TransportContext {
    /// The fast binary transport.
    Fast,
    /// The A2A HTTP transport.
    A2a,
}

/// Builder for serving an agent on one or more transports; obtain it with
/// [`serve`].
pub struct ServerBuilder<A, L> {
    agent: A,
    fast_path: Option<String>,
    http_addr: Option<String>,
    logger: Option<L>,
}

/// What a [`ServerBuilder`] holds.
pub struct ServerPlan<A, L> {
    pub agent: A,
    pub fast_path: Option<Seq<char>>,
    pub http_addr: Option<Seq<char>>,
    pub logger: Option<L>,
}

/// The text of an optional string.
pub open spec fn opt_view(o: Option<String>) -> Option<Seq<char>> {
    match o {
        Some(s) => Some(s@),
        None => None,
    }
}

impl<A, L> View for ServerBuilder<A, L> {
    type V = ServerPlan<A, L>;

    closed spec fn view(&self) -> ServerPlan<A, L> {
        ServerPlan {
            agent: self.agent,
            fast_path: opt_view(self.fast_path),
            http_addr: opt_view(self.http_addr),
            logger: self.logger,
        }
    }
}

/// A builder serving `agent` on no transport yet, without a logger.
pub fn serve<A, L>(agent: A) -> (b: ServerBuilder<A, L>)
    ensures
        b@.agent == agent,
        b@.fast_path is None,
        b@.http_addr is None,
        b@.logger is None,
{
    ServerBuilder { agent, fast_path: None, http_addr: None, logger: None }
}

/// Message of the error for a server with no transport configured.
pub open spec fn no_transport_text() -> Seq<char> {
    "no transports configured \u{2014} call .fast() and/or .http()"@
}

impl<A, L> ServerBuilder<A, L> {
    /// Also serves on the fast transport at Unix socket `socket_path`.
    pub fn fast(self, socket_path: &str) -> (b: Self)
        ensures
            b@ == (ServerPlan { fast_path: Some(socket_path@), ..self@ }),
    {
        ServerBuilder { fast_path: Some(String::from_str(socket_path)), ..self }
    }

    /// Also serves on the A2A HTTP transport at `addr`, e.g. `"127.0.0.1:3000"`.
    pub fn http(self, addr: &str) -> (b: Self)
        ensures
            b@ == (ServerPlan { http_addr: Some(addr@), ..self@ }),
    {
        ServerBuilder { http_addr: Some(String::from_str(addr)), ..self }
    }

    /// Records every inbound task with `logger`.
    pub fn with_transport_logger(self, logger: L) -> (b: Self)
        ensures
            b@ == (ServerPlan { logger: Some(logger), ..self@ }),
    {
        ServerBuilder { logger: Some(logger), ..self }
    }

    /// The transports to start, fast first, or an error when none is
    /// configured.
    pub fn transports(&self) -> (r: Result<Vec<TransportContext>, String>)
        ensures
            (self@.fast_path is None && self@.http_addr is None) ==> (r matches Err(msg) && msg@
                == no_transport_text()),
            !(self@.fast_path is None && self@.http_addr is None) ==> (r matches Ok(v) && v@ == (if self@.fast_path
                is Some {
                seq![TransportContext::Fast]
            } else {
                Seq::empty()
            }) + (if self@.http_addr is Some {
                seq![TransportContext::A2a]
            } else {
                Seq::empty()
            })),
    {
        let mut v: Vec<TransportContext> = Vec::new();
        if self.fast_path.is_some() {
            v.push(TransportContext::Fast);
        }
        if self.http_addr.is_some() {
            v.push(TransportContext::A2a);
        }
        if v.len() == 0 {
            return Err(String::from_str("no transports configured \u{2014} call .fast() and/or .http()"));
        }
        proof {
            let f: Seq<TransportContext> = if self@.fast_path is Some {
                seq![TransportContext::Fast]
            } else {
                Seq::empty()
            };
            let h: Seq<TransportContext> = if self@.http_addr is Some {
                seq![TransportContext::A2a]
            } else {
                Seq::empty()
            };
            assert(v@ =~= f + h);
        }
        Ok(v)
    }

    /// Whether the agent served on `context` is wrapped to record inbound
    /// tasks, and as which transport: only when a logger is set.
    pub fn logging_for(&self, context: TransportContext) -> (k: Option<TransportKind>)
        ensures
            self@.logger is None ==> k is None,
            self@.logger is Some ==> k == Some(transport_kind_of(context)),
    {
        if self.logger.is_some() {
            Some(transport_kind(context))
        } else {
            None
        }
    }

    /// The served agent.
    pub fn agent(&self) -> (a: &A)
        ensures
            *a == self@.agent,
    {
        &self.agent
    }

    /// The fast transport's socket path, if set.
    pub fn fast_path(&self) -> (p: Option<&String>)
        ensures
            p matches Some(s) ==> self@.fast_path == Some(s@),
            p is None <==> self@.fast_path is None,
    {
        self.fast_path.as_ref()
    }

    /// The HTTP address, if set.
    pub fn http_addr(&self) -> (p: Option<&String>)
        ensures
            p matches Some(s) ==> self@.http_addr == Some(s@),
            p is None <==> self@.http_addr is None,
    {
        self.http_addr.as_ref()
    }

    /// The logger, if set.
    pub fn logger(&self) -> (l: Option<&L>)
        ensures
            l matches Some(x) ==> self@.logger == Some(*x),
            l is None <==> self@.logger is None,
    {
        self.logger.as_ref()
    }
}

/// The log's name for a transport.
pub open spec fn transport_kind_of(context: TransportContext) -> TransportKind {
    match context {
        TransportContext::Fast => TransportKind::Fast,
        TransportContext::A2a => TransportKind::A2a,
    }
}

/// The log's name for a transport.
pub fn transport_kind(context: TransportContext) -> (k: TransportKind)
    ensures
        k == transport_kind_of(context),
{
    match context {
        TransportContext::Fast => TransportKind::Fast,
        TransportContext::A2a => TransportKind::A2a,
    }
}

/// The transport used to reach `endpoint`: a socket path goes over the
/// fast transport, a URL over A2A HTTP.
pub fn endpoint_transport(endpoint: &AgentEndpoint) -> (c: TransportContext)
    ensures
        endpoint matches AgentEndpoint::Fast(_) ==> c == TransportContext::Fast,
        endpoint matches AgentEndpoint::Http(_) ==> c == TransportContext::A2a,
{
    match endpoint {
        AgentEndpoint::Fast(_) => TransportContext::Fast,
        AgentEndpoint::Http(_) => TransportContext::A2a,
    }
}

/// The transport a client sends a task over: the fast connection when it
/// has one, else the HTTP one, else a connection error.
pub fn client_transport(has_fast: bool, has_http: bool) -> (r: Result<TransportContext, TransportError>)
    ensures
        has_fast ==> r == Ok::<TransportContext, TransportError>(TransportContext::Fast),
        !has_fast && has_http ==> r == Ok::<TransportContext, TransportError>(TransportContext::A2a),
        !has_fast && !has_http ==> (r matches Err(TransportError::Connection(m)) && m@ == "no transport configured"@),
{
    if has_fast {
        Ok(TransportContext::Fast)
    } else if has_http {
        Ok(TransportContext::A2a)
    } else {
        Err(TransportError::Connection(String::from_str("no transport configured")))
    }
}

} // verus!
