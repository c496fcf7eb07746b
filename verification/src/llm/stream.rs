//! Reading a language model's streamed reply: splitting the byte stream into
//! lines, and filtering the tokens of each line so that reasoning blocks
//! (`<think> ... </think>`) never reach the answer.

use vstd::prelude::*;

use crate::text::{find_text, occurs_at, trim, trimmed};

verus! {

/// Prefix of every system prompt that asks the model not to reason aloud.
pub const NO_THINK_PREFIX: &'static str = "/no_think\n\n";

/// Marker that opens a reasoning block.
pub const THINK_OPEN: &'static str = "<think>";

/// Marker that closes a reasoning block.
pub const THINK_CLOSE: &'static str = "</think>";

/// The system prompt sent to the model: `system` behind [`NO_THINK_PREFIX`].
pub fn system_with_no_think(system: Option<&str>) -> (r: Option<String>)
    ensures
        system matches Some(s) ==> (r matches Some(t) && t@ == NO_THINK_PREFIX@ + s@),
        system is None ==> r is None,
{
    match system {
        Some(s) => {
            let mut t = String::from_str(NO_THINK_PREFIX);
            t.append(s);
            Some(t)
        },
        None => None,
    }
}

/// The generation endpoint of the model server at `base_url`.
pub fn generate_url(base_url: &str) -> (r: String)
    ensures
        r@ == base_url@ + "/api/generate"@,
{
    let mut r = String::from_str(base_url);
    r.append("/api/generate");
    r
}

// ---------------------------------------------------------------------------
// Lines
// ---------------------------------------------------------------------------

/// `p` is the position of the first line break of `s`.
pub open spec fn is_first_newline(s: Seq<char>, p: int) -> bool {
    &&& 0 <= p < s.len()
    &&& s[p] == '\n'
    &&& forall|q: int| 0 <= q < p ==> s[q] != '\n'
}

/// `s` holds a line break.
pub open spec fn has_newline(s: Seq<char>) -> bool {
    exists|p: int| 0 <= p < s.len() && s[p] == '\n'
}

/// Takes the first complete line off `buf`: the line before the first line
/// break, trimmed, and what follows the break. `None` while `buf` holds no
/// line break.
pub fn take_line(buf: &str) -> (r: Option<(String, String)>)
    ensures
        r is None <==> !has_newline(buf@),
        r matches Some((line, rest)) ==> exists|p: int|
            is_first_newline(buf@, p) && line@ == trimmed(buf@.take(p)) && rest@ == buf@.skip(p + 1),
{
    let n = buf.unicode_len();
    let mut p: usize = 0;
    while p < n && buf.get_char(p) != '\n'
        invariant
            n == buf@.len(),
            p <= n,
            forall|q: int| 0 <= q < p ==> buf@[q] != '\n',
        decreases n - p,
    {
        p = p + 1;
    }
    if p == n {
        return None;
    }
    let line = trim(buf.substring_char(0, p));
    let rest = String::from_str(buf.substring_char(p + 1, n));
    proof {
        assert(buf@.subrange(0, p as int) =~= buf@.take(p as int));
        assert(buf@.subrange(p + 1, n as int) =~= buf@.skip(p + 1));
        assert(is_first_newline(buf@, p as int));
    }
    Some((line, rest))
}

// ---------------------------------------------------------------------------
// Tokens
// ---------------------------------------------------------------------------

/// One line of the model's streamed reply.
#[derive(Debug, Clone)]
pub struct StreamChunk {
    /// The token(s) of the answer.
    pub response: String,
    /// Whether this is the last chunk.
    pub done: bool,
    /// Reasoning tokens, sent apart from the answer.
    pub thinking: String,
}

/// What the reader does with a chunk.
#[derive(Debug, Clone, Copy, PartialEq, Eq, Structural)]
pub enum ChunkVerdict {
    /// Drop the chunk and read on.
    Skip,
    /// Drop the chunk and stop reading the lines received so far.
    Stop,
    /// Show the token and add it to the answer; `first` when it is the first
    /// visible token, `stop` when the lines received so far are not read on.
    Emit { first: bool, stop: bool },
}

/// State of the token filter: whether a reasoning block is open, and
/// whether a visible token has been seen.
#[derive(Debug, Clone, Copy, PartialEq, Eq, Structural)]
pub struct ThinkFilter {
    /// A `<think>` marker has been seen and not yet closed.
    pub inside_think_block: bool,
    /// A non-empty token has been shown.
    pub first_token_seen: bool,
}

/// `text` contains `marker`.
pub open spec fn contains(text: Seq<char>, marker: Seq<char>) -> bool {
    exists|i: int| occurs_at(text, marker, i)
}

/// The filter's state after `c`, and what is done with `c`:
/// reasoning tokens sent apart are dropped; a token holding `</think>`
/// closes the block and is dropped; inside a block (opened by this token or
/// an earlier one) tokens are dropped; any other token is shown. A dropped
/// last chunk stops the reading of the lines at hand.
pub open spec fn filter_step(f: ThinkFilter, c: StreamChunk) -> (ThinkFilter, ChunkVerdict) {
    let drop_verdict = if c.done {
        ChunkVerdict::Stop
    } else {
        ChunkVerdict::Skip
    };
    if c.thinking@.len() > 0 {
        (f, ChunkVerdict::Skip)
    } else if contains(c.response@, THINK_CLOSE@) {
        (ThinkFilter { inside_think_block: false, ..f }, drop_verdict)
    } else if f.inside_think_block || contains(c.response@, THINK_OPEN@) {
        (ThinkFilter { inside_think_block: true, ..f }, drop_verdict)
    } else {
        let first = !f.first_token_seen && c.response@.len() > 0;
        (
            ThinkFilter { inside_think_block: false, first_token_seen: f.first_token_seen || first },
            ChunkVerdict::Emit { first, stop: c.done },
        )
    }
}

fn text_contains(text: &str, marker: &str) -> (r: bool)
    ensures
        r == contains(text@, marker@),
{
    match find_text(text, marker) {
        Some(i) => true,
        None => {
            assert(!contains(text@, marker@));
            false
        },
    }
}

impl ThinkFilter {
    /// No block open, no token seen.
    pub fn new() -> (f: Self)
        ensures
            !f.inside_think_block,
            !f.first_token_seen,
    {
        ThinkFilter { inside_think_block: false, first_token_seen: false }
    }

    /// Decides what to do with `chunk` and moves to the next state.
    pub fn step(&mut self, chunk: &StreamChunk) -> (v: ChunkVerdict)
        ensures
            (*final(self), v) == filter_step(*old(self), *chunk),
    {
        let drop_verdict = if chunk.done {
            ChunkVerdict::Stop
        } else {
            ChunkVerdict::Skip
        };
        if chunk.thinking.as_str().unicode_len() > 0 {
            return ChunkVerdict::Skip;
        }
        let token = chunk.response.as_str();
        if text_contains(token, THINK_CLOSE) {
            self.inside_think_block = false;
            return drop_verdict;
        }
        if self.inside_think_block || text_contains(token, THINK_OPEN) {
            self.inside_think_block = true;
            return drop_verdict;
        }
        let first = !self.first_token_seen && token.unicode_len() > 0;
        self.first_token_seen = self.first_token_seen || first;
        ChunkVerdict::Emit { first, stop: chunk.done }
    }
}

// ---------------------------------------------------------------------------
// Result
// ---------------------------------------------------------------------------

/// Timing of one generation, in microseconds.
#[derive(Debug, Clone, Copy, PartialEq, Eq, Structural)]
pub struct GenerateTiming {
    /// Time spent waiting for the first visible token (network and model
    /// load included).
    pub time_to_first_token_us: u128,
    /// Total time the model spent generating.
    pub llm_total_us: u128,
}

/// The timing of a generation that took `llm_total_us` and showed its first
/// token after `first_token_us`; without a visible token the first-token
/// time is the total. Both times are read from one monotonic clock, the
/// first token's before the total, so the first never exceeds the total.
pub fn generate_timing(first_token_us: Option<u128>, llm_total_us: u128) -> (t: GenerateTiming)
    requires
        first_token_us matches Some(f) ==> f <= llm_total_us,
    ensures
        t.llm_total_us == llm_total_us,
        t.time_to_first_token_us <= t.llm_total_us,
        first_token_us matches Some(f) ==> t.time_to_first_token_us == f,
        first_token_us is None ==> t.time_to_first_token_us == llm_total_us,
{
    let ttft = match first_token_us {
        Some(f) => f,
        None => llm_total_us,
    };
    GenerateTiming { time_to_first_token_us: ttft, llm_total_us }
}

/// The answer made of the shown tokens `full_text`, trimmed.
pub fn final_answer(full_text: &str) -> (r: String)
    ensures
        r@ == trimmed(full_text@),
{
    trim(full_text)
}

/// What the filter guarantees of every chunk: inside an open reasoning
/// block nothing is shown until a token closes it; a shown token holds
/// neither marker and comes with no reasoning text; once a visible token
/// has been seen it stays seen and no later token is marked first; and a
/// token is marked first exactly when it is the first non-empty one shown.
pub proof fn lemma_think_filter(f: ThinkFilter, c: StreamChunk)
    ensures
        f.inside_think_block && !contains(c.response@, THINK_CLOSE@) ==> !(filter_step(f, c).1 is Emit),
        filter_step(f, c).1 matches ChunkVerdict::Emit { first, stop } ==> {
            &&& !contains(c.response@, THINK_OPEN@)
            &&& !contains(c.response@, THINK_CLOSE@)
            &&& c.thinking@.len() == 0
            &&& !f.inside_think_block
            &&& stop == c.done
            &&& first == (!f.first_token_seen && c.response@.len() > 0)
        },
        f.first_token_seen ==> filter_step(f, c).0.first_token_seen,
        f.first_token_seen ==> !(filter_step(f, c).1 matches ChunkVerdict::Emit { first: true, .. }),
        !(filter_step(f, c).1 is Emit) ==> filter_step(f, c).0.first_token_seen == f.first_token_seen,
{
}

/// The filter's state after the chunks `cs`, and its verdicts on them in
/// order.
pub open spec fn run_filter(f: ThinkFilter, cs: Seq<StreamChunk>) -> (ThinkFilter, Seq<ChunkVerdict>)
    decreases cs.len(),
{
    if cs.len() == 0 {
        (f, Seq::empty())
    } else {
        let (g, v) = filter_step(f, cs[0]);
        let (h, vs) = run_filter(g, cs.drop_first());
        (h, seq![v] + vs)
    }
}

/// How many of the verdicts `vs` mark a first token.
pub open spec fn first_marks(vs: Seq<ChunkVerdict>) -> nat
    decreases vs.len(),
{
    if vs.len() == 0 {
        0
    } else {
        (if vs[0] matches ChunkVerdict::Emit { first: true, .. } {
            1nat
        } else {
            0nat
        }) + first_marks(vs.drop_first())
    }
}

/// Over any stream, the time to first token is taken at most once: a
/// filter that has seen no token marks at most one chunk as first, and
/// marks one exactly when it ends having seen a token; a filter that has
/// seen one marks none.
pub proof fn lemma_first_token_marked_once(f: ThinkFilter, cs: Seq<StreamChunk>)
    ensures
        f.first_token_seen ==> first_marks(run_filter(f, cs).1) == 0 && run_filter(f, cs).0.first_token_seen,
        !f.first_token_seen ==> first_marks(run_filter(f, cs).1) <= 1 && (first_marks(run_filter(f, cs).1) == 1
            <==> run_filter(f, cs).0.first_token_seen),
    decreases cs.len(),
{
    if cs.len() > 0 {
        let (g, v) = filter_step(f, cs[0]);
        lemma_think_filter(f, cs[0]);
        lemma_first_token_marked_once(g, cs.drop_first());
        let (h, vs) = run_filter(g, cs.drop_first());
        let all = seq![v] + vs;
        assert(all[0] == v);
        assert(all.drop_first() =~= vs);
        if !f.first_token_seen {
            assert((v matches ChunkVerdict::Emit { first: true, .. }) <==> g.first_token_seen);
        }
    }
}

/// Reasoning that arrives in the separate `thinking` field is dropped
/// without touching the filter: the state stays as it was. From a state
/// with no block open, a plain token (no reasoning text, neither marker) is
/// shown, marked first exactly when it is the first non-empty token, and
/// stops the reading exactly when it is the last chunk; so a plain token
/// after any number of `thinking` chunks is still shown.
pub proof fn lemma_plain_tokens_are_shown(f: ThinkFilter, c: StreamChunk)
    ensures
        c.thinking@.len() > 0 ==> filter_step(f, c).0 == f && filter_step(f, c).1 == ChunkVerdict::Skip,
        (!f.inside_think_block && c.thinking@.len() == 0 && !contains(c.response@, THINK_OPEN@) && !contains(
            c.response@,
            THINK_CLOSE@,
        )) ==> filter_step(f, c).1 == (ChunkVerdict::Emit {
            first: !f.first_token_seen && c.response@.len() > 0,
            stop: c.done,
        }) && !filter_step(f, c).0.inside_think_block,
{
}

/// A run of chunks that each carry reasoning only in the `thinking` field
/// leaves the filter exactly as it was, and every one of them is dropped.
pub proof fn lemma_thinking_run_leaves_filter(f: ThinkFilter, cs: Seq<StreamChunk>)
    requires
        forall|i: int| 0 <= i < cs.len() ==> (#[trigger] cs[i]).thinking@.len() > 0,
    ensures
        run_filter(f, cs).0 == f,
        forall|i: int| 0 <= i < cs.len() ==> #[trigger] run_filter(f, cs).1[i] == ChunkVerdict::Skip,
        run_filter(f, cs).1.len() == cs.len(),
    decreases cs.len(),
{
    if cs.len() > 0 {
        let rest = cs.drop_first();
        assert forall|i: int| 0 <= i < rest.len() implies (#[trigger] rest[i]).thinking@.len() > 0 by {
            assert(rest[i] == cs[i + 1]);
        }
        lemma_thinking_run_leaves_filter(f, rest);
        assert(cs[0].thinking@.len() > 0);
        let all = run_filter(f, cs).1;
        assert forall|i: int| 0 <= i < cs.len() implies #[trigger] all[i] == ChunkVerdict::Skip by {
            if i > 0 {
                assert(all[i] == run_filter(f, rest).1[i - 1]);
            }
        }
    }
}

} // verus!
