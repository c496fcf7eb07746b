//! Agents and middleware: the default answer to a cancellation, and the
//! order in which a stack of middleware layers is traversed.

use vstd::prelude::*;

use crate::protocol::types::{TaskState, TaskStatus};

verus! {

/// The status an agent answers a cancellation with, unless it does its own
/// cleanup: `Canceled`, without message or timestamp.
pub fn canceled_status() -> (s: TaskStatus)
    ensures
        s.state == TaskState::Canceled,
        s.message is None,
        s.timestamp is None,
{
    TaskStatus { state: TaskState::Canceled, message: None, timestamp: None }
}

/// Which layer of a [`MiddlewareStack`] handles a request at some depth.
#[derive(Debug, Clone, Copy, PartialEq, Eq, Structural)]
pub enum Layer {
    /// The middleware at this position (0 is the outermost).
    Middleware(usize),
    /// The wrapped agent itself.
    Agent,
}

/// An agent wrapped in an ordered stack of middlewares.
///
/// The first middleware added is the outermost layer: a request passes the
/// middlewares in the order they were added, then reaches the agent.
pub struct MiddlewareStack<A, M> {
    agent: A,
    middlewares: Vec<M>,
}

impl<A, M> MiddlewareStack<A, M> {
    /// The wrapped agent.
    pub closed spec fn spec_agent(&self) -> A {
        self.agent
    }

    /// The middlewares, outermost first.
    pub closed spec fn spec_layers(&self) -> Seq<M> {
        self.middlewares@
    }

    /// A stack around `agent` with no middleware yet.
    pub fn new(agent: A) -> (s: Self)
        ensures
            s.spec_agent() == agent,
            s.spec_layers().len() == 0,
    {
        MiddlewareStack { agent, middlewares: Vec::new() }
    }

    /// The same stack with `middleware` added inside all earlier layers.
    pub fn with(self, middleware: M) -> (s: Self)
        ensures
            s.spec_agent() == self.spec_agent(),
            s.spec_layers() == self.spec_layers().push(middleware),
    {
        let mut s = self;
        s.middlewares.push(middleware);
        s
    }

    /// The number of middleware layers.
    pub fn depth(&self) -> (n: usize)
        ensures
            n == self.spec_layers().len(),
    {
        self.middlewares.len()
    }

    /// The layer that handles a request that has passed `depth` layers.
    pub fn layer_at(&self, depth: usize) -> (l: Layer)
        ensures
            l == layer_of(self.spec_layers().len(), depth as int),
            depth < self.spec_layers().len() ==> l == Layer::Middleware(depth),
            depth >= self.spec_layers().len() ==> l == Layer::Agent,
    {
        if depth < self.middlewares.len() {
            Layer::Middleware(depth)
        } else {
            Layer::Agent
        }
    }

    /// The middleware at position `i` (0 is the outermost).
    pub fn middleware(&self, i: usize) -> (m: &M)
        requires
            i < self.spec_layers().len(),
        ensures
            *m == self.spec_layers()[i as int],
    {
        &self.middlewares[i]
    }

    /// The wrapped agent.
    pub fn agent(&self) -> (a: &A)
        ensures
            *a == self.spec_agent(),
    {
        &self.agent
    }
}

/// A request entering a stack passes every middleware once, outermost (the
/// first added) first, and then the agent: at depth `d` below the number of
/// layers the `d`-th middleware handles it, and past the last layer the
/// agent does.
pub proof fn lemma_layers_in_insertion_order<M>(layers: Seq<M>, added: M, d: int)
    requires
        0 <= d <= layers.len(),
    ensures
        d < layers.len() ==> layers.push(added)[d] == layers[d],
        layers.push(added)[layers.len() as int] == added,
        layers.push(added).len() == layers.len() + 1,
{
}

/// The layer of a stack with `n` middlewares that handles a request that
/// has passed `depth` layers.
pub open spec fn layer_of(n: nat, depth: int) -> Layer {
    if 0 <= depth < n {
        Layer::Middleware(depth as usize)
    } else {
        Layer::Agent
    }
}

/// The layers a request meets from depth `depth` on, in a stack with `n`
/// middlewares, when each middleware passes it on to the next depth.
pub open spec fn layers_met(n: nat, depth: nat) -> Seq<Layer>
    decreases n - depth,
{
    if depth < n {
        seq![layer_of(n, depth as int)] + layers_met(n, depth + 1)
    } else {
        seq![layer_of(n, depth as int)]
    }
}

/// A request entering a stack of `n` middlewares (each passing it on)
/// meets every middleware once, outermost first, and then the agent once;
/// with no middleware it goes straight to the agent.
pub proof fn lemma_request_meets_each_layer_once(n: nat, depth: nat)
    requires
        depth <= n,
        n <= usize::MAX,
    ensures
        layers_met(n, depth).len() == n - depth + 1,
        forall|i: int| 0 <= i < n - depth ==> #[trigger] layers_met(n, depth)[i] == Layer::Middleware((depth + i) as usize),
        layers_met(n, depth)[n - depth] == Layer::Agent,
    decreases n - depth,
{
    if depth < n {
        lemma_request_meets_each_layer_once(n, depth + 1);
        let rest = layers_met(n, depth + 1);
        let all = layers_met(n, depth);
        assert(all == seq![layer_of(n, depth as int)] + rest);
        assert forall|i: int| 0 <= i < n - depth implies #[trigger] all[i] == Layer::Middleware((depth + i) as usize) by {
            if i > 0 {
                assert(all[i] == rest[i - 1]);
            }
        }
        assert(all[n - depth] == rest[n - depth - 1]);
    }
}

/// A stack built around an agent with no middleware added is that agent:
/// it holds the agent, a request at depth 0 goes straight to the agent, and
/// it meets no other layer.
pub proof fn lemma_bare_stack_is_its_agent<A, M>(s: MiddlewareStack<A, M>, a: A)
    requires
        s.spec_agent() == a,
        s.spec_layers().len() == 0,
    ensures
        layer_of(s.spec_layers().len(), 0) == Layer::Agent,
        layers_met(s.spec_layers().len(), 0) == seq![Layer::Agent],
        s.spec_agent() == a,
{
    assert(layers_met(0, 0) =~= seq![Layer::Agent]);
}

/// Built-in middleware that records a log event when a task is received
/// and when it completes or fails.
pub struct LoggingMiddleware;

} // verus!
