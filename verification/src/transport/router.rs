//! Agent endpoints and the name-to-endpoint table a router dispatches by.

use vstd::prelude::*;
use std::path::PathBuf;

use crate::keyed::{distinct_keys, find_key, lemma_table_value_at, table_insert, table_map, table_remove, has_key};
use crate::protocol::error::TransportError;

verus! {

/// Describes how to reach a specific agent.
#[derive(Debug, Clone)]
pub enum AgentEndpoint {
    /// Local Unix socket path: the fast binary transport.
    Fast(PathBuf),
    /// Remote HTTP URL: the A2A JSON-RPC transport.
    Http(String),
}

impl AgentEndpoint {
    /// A copy of this endpoint.
    pub fn duplicate(&self) -> (r: Self)
        ensures
            r == *self,
    {
        match self {
            AgentEndpoint::Fast(p) => AgentEndpoint::Fast(p.clone()),
            AgentEndpoint::Http(u) => AgentEndpoint::Http(u.clone()),
        }
    }
}

/// Table of agent endpoints by agent name; the transport for each send is
/// chosen by the kind of endpoint registered under the name.
#[derive(Debug)]
pub struct Router {
    endpoints: Vec<(String, AgentEndpoint)>,
}

impl View for Router {
    type V = Map<Seq<char>, AgentEndpoint>;

    closed spec fn view(&self) -> Map<Seq<char>, AgentEndpoint> {
        table_map(self.endpoints@)
    }
}

impl Router {
    #[verifier::type_invariant]
    spec fn names_distinct(&self) -> bool {
        distinct_keys(self.endpoints@)
    }

    /// A router with no agents.
    pub fn new() -> (r: Self)
        ensures
            r@ == Map::<Seq<char>, AgentEndpoint>::empty(),
    {
        let r = Router { endpoints: Vec::new() };
        assert(r@ =~= Map::<Seq<char>, AgentEndpoint>::empty());
        r
    }

    /// Registers `endpoint` under `name`, replacing any earlier endpoint.
    pub fn register(&mut self, name: &str, endpoint: AgentEndpoint)
        ensures
            final(self)@ == old(self)@.insert(name@, endpoint),
    {
        proof {
            use_type_invariant(&*self);
        }
        let mut endpoints: Vec<(String, AgentEndpoint)> = Vec::new();
        std::mem::swap(&mut endpoints, &mut self.endpoints);
        table_insert(&mut endpoints, String::from_str(name), endpoint);
        self.endpoints = endpoints;
    }

    /// Removes the endpoint registered under `name`, if any.
    pub fn unregister(&mut self, name: &str)
        ensures
            final(self)@ == old(self)@.remove(name@),
    {
        proof {
            use_type_invariant(&*self);
        }
        let mut endpoints: Vec<(String, AgentEndpoint)> = Vec::new();
        std::mem::swap(&mut endpoints, &mut self.endpoints);
        table_remove(&mut endpoints, name);
        self.endpoints = endpoints;
    }

    /// The names of all registered agents, each once.
    pub fn agents(&self) -> (names: Vec<String>)
        ensures
            names@.len() == self@.len(),
            forall|i: int| 0 <= i < names@.len() ==> self@.contains_key(#[trigger] names@[i]@),
            forall|i: int, j: int| 0 <= i < names@.len() && 0 <= j < names@.len() && i != j ==> names@[i]@ != names@[j]@,
            forall|k: Seq<char>| #[trigger] self@.contains_key(k) ==> exists|i: int| 0 <= i < names@.len() && names@[i]@ == k,
    {
        proof {
            use_type_invariant(self);
            crate::keyed::lemma_table_len(self.endpoints@);
        }
        let mut names: Vec<String> = Vec::new();
        let mut i: usize = 0;
        while i < self.endpoints.len()
            invariant
                i <= self.endpoints@.len(),
                names@.len() == i,
                forall|j: int| 0 <= j < i ==> #[trigger] names@[j]@ == self.endpoints@[j].0@,
            decreases self.endpoints@.len() - i,
        {
            names.push(self.endpoints[i].0.clone());
            i = i + 1;
        }
        proof {
            assert forall|j: int| 0 <= j < names@.len() implies self@.contains_key(#[trigger] names@[j]@) by {
                assert(has_key(self.endpoints@, self.endpoints@[j].0@));
            }
            assert forall|k: Seq<char>| #[trigger] self@.contains_key(k) implies exists|j: int|
                0 <= j < names@.len() && names@[j]@ == k by {
                let j = choose|j: int| 0 <= j < self.endpoints@.len() && self.endpoints@[j].0@ == k;
                assert(names@[j]@ == k);
            }
        }
        names
    }

    /// The endpoint registered under `name`, or `AgentNotFound(name)`.
    pub fn resolve(&self, name: &str) -> (r: Result<AgentEndpoint, TransportError>)
        ensures
            self@.contains_key(name@) ==> r == Ok::<AgentEndpoint, TransportError>(self@[name@]),
            !self@.contains_key(name@) ==> (r matches Err(TransportError::AgentNotFound(n)) && n@ == name@),
    {
        proof {
            use_type_invariant(self);
        }
        match find_key(&self.endpoints, name) {
            Some(i) => {
                proof {
                    lemma_table_value_at(self.endpoints@, i as int);
                }
                Ok(self.endpoints[i].1.duplicate())
            },
            None => Err(TransportError::AgentNotFound(String::from_str(name))),
        }
    }
}

impl Default for Router {
    fn default() -> (r: Self)
        ensures
            r@ == Map::<Seq<char>, AgentEndpoint>::empty(),
    {
        Self::new()
    }
}

/// After `register(name, endpoint)`, sending to `name` reaches `endpoint`
/// and every other name still reaches what it reached before.
pub proof fn lemma_register_then_resolve(
    before: Map<Seq<char>, AgentEndpoint>,
    name: Seq<char>,
    endpoint: AgentEndpoint,
    other: Seq<char>,
)
    requires
        other != name,
    ensures
        before.insert(name, endpoint).contains_key(name),
        before.insert(name, endpoint)[name] == endpoint,
        before.insert(name, endpoint).contains_key(other) == before.contains_key(other),
        before.contains_key(other) ==> before.insert(name, endpoint)[other] == before[other],
{
}

/// After `unregister(name)`, sending to `name` fails with `AgentNotFound`,
/// and every other name still reaches what it reached before.
pub proof fn lemma_unregister_then_resolve(before: Map<Seq<char>, AgentEndpoint>, name: Seq<char>, other: Seq<char>)
    requires
        other != name,
    ensures
        !before.remove(name).contains_key(name),
        before.remove(name).contains_key(other) == before.contains_key(other),
        before.contains_key(other) ==> before.remove(name)[other] == before[other],
{
}

} // verus!
