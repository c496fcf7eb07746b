//! Local registry of agent cards and endpoints, searchable by name and by
//! skill tag, that can fill a [`Router`].

use vstd::prelude::*;

use crate::keyed::{distinct_keys, find_key, has_key, lemma_table_len, lemma_table_value_at, table_insert, table_map, table_remove};
use crate::protocol::types::{card_has_tag, AgentCard, AgentCardModel};
use crate::transport::router::{AgentEndpoint, Router};

verus! {

/// Registered agents: each name maps to its card and endpoint.
#[derive(Debug)]
pub struct Discovery {
    cards: Vec<(String, (AgentCard, AgentEndpoint))>,
}

/// Every entry of `s` is keyed by the name on its card.
pub open spec fn keyed_by_card_name(s: Seq<(String, (AgentCard, AgentEndpoint))>) -> bool {
    forall|i: int| 0 <= i < s.len() ==> #[trigger] s[i].0@ == s[i].1.0.name@
}

impl View for Discovery {
    type V = Map<Seq<char>, (AgentCardModel, AgentEndpoint)>;

    closed spec fn view(&self) -> Map<Seq<char>, (AgentCardModel, AgentEndpoint)> {
        table_map(self.cards@).map_values(|p: (AgentCard, AgentEndpoint)| (p.0.deep_view(), p.1))
    }
}

/// `cards` lists, each once, the registered cards of `reg` that satisfy
/// `wanted`.
pub open spec fn lists_exactly(
    cards: Seq<AgentCard>,
    reg: Map<Seq<char>, (AgentCardModel, AgentEndpoint)>,
    wanted: spec_fn(AgentCardModel) -> bool,
) -> bool {
    &&& forall|i: int| 0 <= i < cards.len() ==> {
        &&& reg.contains_key(#[trigger] cards[i].name@)
        &&& reg[cards[i].name@].0 == cards[i].deep_view()
        &&& wanted(cards[i].deep_view())
    }
    &&& forall|i: int, j: int| 0 <= i < cards.len() && 0 <= j < cards.len() && i != j ==> cards[i].name@ != cards[j].name@
    &&& forall|k: Seq<char>| #[trigger] reg.contains_key(k) && wanted(reg[k].0) ==> exists|i: int|
        0 <= i < cards.len() && cards[i].name@ == k
}

impl Discovery {
    #[verifier::type_invariant]
    spec fn well_keyed(&self) -> bool {
        distinct_keys(self.cards@) && keyed_by_card_name(self.cards@)
    }

    /// An empty registry.
    pub fn new() -> (d: Self)
        ensures
            d@ == Map::<Seq<char>, (AgentCardModel, AgentEndpoint)>::empty(),
    {
        let d = Discovery { cards: Vec::new() };
        assert(d@ =~= Map::<Seq<char>, (AgentCardModel, AgentEndpoint)>::empty());
        d
    }

    /// Registers `card` with `endpoint` under the card's name, replacing
    /// any earlier registration under that name.
    pub fn register(&mut self, card: AgentCard, endpoint: AgentEndpoint)
        ensures
            final(self)@ == old(self)@.insert(card.name@, (card.deep_view(), endpoint)),
    {
        proof {
            use_type_invariant(&*self);
        }
        let ghost model = card.deep_view();
        let ghost ep = endpoint;
        let name = card.name.clone();
        let mut cards: Vec<(String, (AgentCard, AgentEndpoint))> = Vec::new();
        std::mem::swap(&mut cards, &mut self.cards);
        let ghost before = cards@;
        let ghost pair = (card, endpoint);
        table_insert(&mut cards, name, (card, endpoint));
        proof {
            assert(keyed_by_card_name(cards@)) by {
                assert forall|i: int| 0 <= i < cards@.len() implies #[trigger] cards@[i].0@ == cards@[i].1.0.name@ by {
                    lemma_table_value_at(cards@, i);
                    let k = cards@[i].0@;
                    if k != name@ {
                        let j = choose|j: int| 0 <= j < before.len() && before[j].0@ == k;
                        lemma_table_value_at(before, j);
                    }
                }
            }
        }
        self.cards = cards;
        proof {
            assert(self@ =~= old(self)@.insert(name@, (model, ep)));
        }
    }

    /// Removes the agent registered under `name`, if any.
    pub fn unregister(&mut self, name: &str)
        ensures
            final(self)@ == old(self)@.remove(name@),
    {
        proof {
            use_type_invariant(&*self);
        }
        let mut cards: Vec<(String, (AgentCard, AgentEndpoint))> = Vec::new();
        std::mem::swap(&mut cards, &mut self.cards);
        let ghost before = cards@;
        table_remove(&mut cards, name);
        proof {
            assert(keyed_by_card_name(cards@)) by {
                assert forall|i: int| 0 <= i < cards@.len() implies #[trigger] cards@[i].0@ == cards@[i].1.0.name@ by {
                    lemma_table_value_at(cards@, i);
                    let k = cards@[i].0@;
                    let j = choose|j: int| 0 <= j < before.len() && before[j].0@ == k;
                    lemma_table_value_at(before, j);
                }
            }
        }
        self.cards = cards;
        proof {
            assert(self@ =~= old(self)@.remove(name@));
        }
    }

    /// The card registered under `name`, if any.
    pub fn find(&self, name: &str) -> (r: Option<AgentCard>)
        ensures
            r matches Some(c) ==> self@.contains_key(name@) && self@[name@].0 == c.deep_view(),
            r is None ==> !self@.contains_key(name@),
    {
        proof {
            use_type_invariant(self);
        }
        match find_key(&self.cards, name) {
            Some(i) => {
                proof {
                    lemma_table_value_at(self.cards@, i as int);
                }
                Some(self.cards[i].1.0.duplicate())
            },
            None => None,
        }
    }

    /// The registered cards whose skills carry `tag`, or all cards when
    /// `tag` is `None`.
    fn collect(&self, tag: Option<&str>) -> (cards: Vec<AgentCard>)
        ensures
            lists_exactly(
                cards@,
                self@,
                |m: AgentCardModel|
                    match tag {
                        Some(t) => card_has_tag(m, t@),
                        None => true,
                    },
            ),
    {
        proof {
            use_type_invariant(self);
        }
        let ghost wanted = |m: AgentCardModel|
            match tag {
                Some(t) => card_has_tag(m, t@),
                None => true,
            };
        let ghost reg = self@;
        let mut out: Vec<AgentCard> = Vec::new();
        let ghost mut picked: Seq<int> = Seq::empty();
        let mut i: usize = 0;
        while i < self.cards.len()
            invariant
                i <= self.cards@.len(),
                reg == self@,
                distinct_keys(self.cards@),
                keyed_by_card_name(self.cards@),
                wanted == (|m: AgentCardModel|
                    match tag {
                        Some(t) => card_has_tag(m, t@),
                        None => true,
                    }),
                picked.len() == out@.len(),
                forall|a: int| 0 <= a < picked.len() ==> 0 <= #[trigger] picked[a] < i,
                forall|a: int| 0 <= a < picked.len() ==> (#[trigger] out@[a]).deep_view()
                    == self.cards@[picked[a]].1.0.deep_view() && out@[a].name@ == self.cards@[picked[a]].0@,
                forall|a: int, b: int| 0 <= a < b < picked.len() ==> picked[a] < picked[b],
                forall|a: int| 0 <= a < picked.len() ==> wanted(self.cards@[#[trigger] picked[a]].1.0.deep_view()),
                forall|j: int| 0 <= j < i && wanted(self.cards@[j].1.0.deep_view()) ==> exists|a: int|
                    0 <= a < picked.len() && #[trigger] picked[a] == j,
            decreases self.cards@.len() - i,
        {
            let card = &self.cards[i].1.0;
            let keep = match tag {
                Some(t) => card.has_tag(t),
                None => true,
            };
            if keep {
                let c = card.duplicate();
                proof {
                    assert(c.name@ == self.cards@[i as int].0@);
                }
                out.push(c);
                proof {
                    let old_picked = picked;
                    picked = picked.push(i as int);
                    assert forall|j: int| 0 <= j < i + 1 && wanted(self.cards@[j].1.0.deep_view()) implies exists|a: int|
                        0 <= a < picked.len() && #[trigger] picked[a] == j by {
                        if j == i {
                            assert(picked[picked.len() - 1] == j);
                        } else {
                            let a = choose|a: int| 0 <= a < old_picked.len() && #[trigger] old_picked[a] == j;
                            assert(picked[a] == old_picked[a]);
                        }
                    }
                }
            }
            i = i + 1;
        }
        proof {
            assert forall|a: int| 0 <= a < out@.len() implies {
                &&& reg.contains_key(#[trigger] out@[a].name@)
                &&& reg[out@[a].name@].0 == out@[a].deep_view()
                &&& wanted(out@[a].deep_view())
            } by {
                lemma_table_value_at(self.cards@, picked[a]);
            }
            assert forall|a: int, b: int| 0 <= a < out@.len() && 0 <= b < out@.len() && a != b implies out@[a].name@
                != out@[b].name@ by {
                if a < b {
                    assert(picked[a] < picked[b]);
                } else {
                    assert(picked[b] < picked[a]);
                }
            }
            assert forall|k: Seq<char>| #[trigger] reg.contains_key(k) && wanted(reg[k].0) implies exists|a: int|
                0 <= a < out@.len() && out@[a].name@ == k by {
                let j = choose|j: int| 0 <= j < self.cards@.len() && self.cards@[j].0@ == k;
                lemma_table_value_at(self.cards@, j);
                let a = choose|a: int| 0 <= a < picked.len() && #[trigger] picked[a] == j;
                assert(out@[a].name@ == k);
            }
        }
        out
    }

    /// All registered cards, each once.
    pub fn list(&self) -> (cards: Vec<AgentCard>)
        ensures
            lists_exactly(cards@, self@, |m: AgentCardModel| true),
    {
        let cards = self.collect(None);
        proof {
            assert((|m: AgentCardModel|
                match Option::<&str>::None {
                    Some(t) => card_has_tag(m, t@),
                    None => true,
                }) =~= (|m: AgentCardModel| true));
        }
        cards
    }

    /// The registered cards that have a skill tagged `tag`, each once.
    pub fn find_by_tag(&self, tag: &str) -> (cards: Vec<AgentCard>)
        ensures
            lists_exactly(cards@, self@, |m: AgentCardModel| card_has_tag(m, tag@)),
    {
        let cards = self.collect(Some(tag));
        proof {
            assert((|m: AgentCardModel|
                match Some(tag) {
                    Some(t) => card_has_tag(m, t@),
                    None => true,
                }) =~= (|m: AgentCardModel| card_has_tag(m, tag@)));
        }
        cards
    }

    /// Registers every agent of this registry in `router`, under its name
    /// and with its endpoint.
    pub fn populate_router(&self, router: &mut Router)
        ensures
            final(router)@ == old(router)@.union_prefer_right(
                self@.map_values(|p: (AgentCardModel, AgentEndpoint)| p.1),
            ),
    {
        proof {
            use_type_invariant(self);
        }
        let ghost start = router@;
        let mut i: usize = 0;
        while i < self.cards.len()
            invariant
                i <= self.cards@.len(),
                distinct_keys(self.cards@),
                router@ == start.union_prefer_right(table_map(self.cards@.take(i as int)).map_values(
                    |p: (AgentCard, AgentEndpoint)| p.1,
                )),
            decreases self.cards@.len() - i,
        {
            let ghost pre = self.cards@.take(i as int);
            let ghost post = self.cards@.take(i + 1);
            router.register(self.cards[i].0.as_str(), self.cards[i].1.1.duplicate());
            proof {
                assert(distinct_keys(post));
                assert(post == pre.push(self.cards@[i as int]));
                let k = self.cards@[i as int].0@;
                assert(table_map(post).map_values(|p: (AgentCard, AgentEndpoint)| p.1) =~= table_map(pre).map_values(
                    |p: (AgentCard, AgentEndpoint)| p.1,
                ).insert(k, self.cards@[i as int].1.1)) by {
                    assert forall|kk: Seq<char>| has_key(post, kk) <==> (has_key(pre, kk) || kk == k) by {
                        if has_key(post, kk) {
                            let a = choose|a: int| 0 <= a < post.len() && post[a].0@ == kk;
                            if a < pre.len() {
                                assert(pre[a].0@ == kk);
                            }
                        }
                        if has_key(pre, kk) {
                            let a = choose|a: int| 0 <= a < pre.len() && pre[a].0@ == kk;
                            assert(post[a].0@ == kk);
                        }
                        if kk == k {
                            assert(post[pre.len() as int].0@ == kk);
                        }
                    }
                    assert forall|kk: Seq<char>| #[trigger] table_map(post).dom().contains(kk) implies table_map(
                        post,
                    )[kk].1 == table_map(pre).insert(k, self.cards@[i as int].1)[kk].1 by {
                        let a = choose|a: int| 0 <= a < post.len() && post[a].0@ == kk;
                        lemma_table_value_at(post, a);
                        if a < pre.len() {
                            lemma_table_value_at(pre, a);
                        }
                    }
                }
            }
            i = i + 1;
        }
        proof {
            assert(self.cards@.take(self.cards@.len() as int) =~= self.cards@);
            assert(table_map(self.cards@).map_values(|p: (AgentCard, AgentEndpoint)| p.1) =~= self@.map_values(
                |p: (AgentCardModel, AgentEndpoint)| p.1,
            ));
        }
    }
}

impl Default for Discovery {
    fn default() -> (d: Self)
        ensures
            d@ == Map::<Seq<char>, (AgentCardModel, AgentEndpoint)>::empty(),
    {
        Self::new()
    }
}

/// After `register(card, endpoint)`, looking up the card's name finds that
/// card with that endpoint, and every other name finds what it found
/// before.
pub proof fn lemma_register_then_find(
    before: Map<Seq<char>, (AgentCardModel, AgentEndpoint)>,
    card: AgentCardModel,
    endpoint: AgentEndpoint,
    other: Seq<char>,
)
    requires
        other != card.name,
    ensures
        before.insert(card.name, (card, endpoint)).contains_key(card.name),
        before.insert(card.name, (card, endpoint))[card.name] == (card, endpoint),
        before.insert(card.name, (card, endpoint)).contains_key(other) == before.contains_key(other),
        before.contains_key(other) ==> before.insert(card.name, (card, endpoint))[other] == before[other],
{
}

/// After `populate_router`, every registered name resolves to its
/// registered endpoint, and every other name resolves as before.
pub proof fn lemma_populated_router_resolves(
    router: Map<Seq<char>, AgentEndpoint>,
    registry: Map<Seq<char>, (AgentCardModel, AgentEndpoint)>,
    name: Seq<char>,
)
    ensures
        registry.contains_key(name) ==> router.union_prefer_right(
            registry.map_values(|p: (AgentCardModel, AgentEndpoint)| p.1),
        ).contains_key(name) && router.union_prefer_right(
            registry.map_values(|p: (AgentCardModel, AgentEndpoint)| p.1),
        )[name] == registry[name].1,
        !registry.contains_key(name) ==> router.union_prefer_right(
            registry.map_values(|p: (AgentCardModel, AgentEndpoint)| p.1),
        ).contains_key(name) == router.contains_key(name),
        !registry.contains_key(name) && router.contains_key(name) ==> router.union_prefer_right(
            registry.map_values(|p: (AgentCardModel, AgentEndpoint)| p.1),
        )[name] == router[name],
{
}

} // verus!
