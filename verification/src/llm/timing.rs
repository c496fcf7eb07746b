//! Timing figures an agent reports in the metadata of its response: the
//! time its model spent generating, and the time to the first token.

use vstd::prelude::*;

use crate::llm::stream::GenerateTiming;
use crate::protocol::metadata::Metadata;
use crate::protocol::types::TaskResponse;
use crate::text::{decimal, lemma_parse_decimal, push_decimal};
use crate::transport::log::{llm_us_of, parsed_entry, parsed_value};

verus! {

/// The duration, in microseconds, that `m` records under `us_key`, or else
/// under `ms_key` in milliseconds; zero when neither holds a number.
pub open spec fn metadata_duration_of(m: Map<Seq<char>, Seq<char>>, us_key: Seq<char>, ms_key: Seq<char>) -> nat {
    match parsed_value(m, us_key) {
        Some(us) => us as nat,
        None => match parsed_value(m, ms_key) {
            Some(ms) => (ms * 1000) as nat,
            None => 0,
        },
    }
}

/// The duration in microseconds that `meta` records under `us_key`, or
/// else under `ms_key` in milliseconds, or zero.
pub fn metadata_duration_us(meta: &Metadata, us_key: &str, ms_key: &str) -> (d: u128)
    ensures
        d == metadata_duration_of(meta@, us_key@, ms_key@),
{
    match parsed_entry(meta, us_key) {
        Some(us) => us as u128,
        None => match parsed_entry(meta, ms_key) {
            Some(ms) => (ms as u128) * 1000,
            None => 0,
        },
    }
}

/// The model time and the time to first token, in microseconds, that
/// `resp` reports (`llm_us` / `llm_ms` and `ttft_us` / `ttft_ms`); zeros
/// when it carries no metadata.
pub fn extract_timing(resp: &TaskResponse) -> (r: (u128, u128))
    ensures
        resp.metadata is None ==> r == (0u128, 0u128),
        resp.metadata matches Some(m) ==> r.0 == metadata_duration_of(m@, "llm_us"@, "llm_ms"@) && r.1
            == metadata_duration_of(m@, "ttft_us"@, "ttft_ms"@),
{
    match &resp.metadata {
        None => (0, 0),
        Some(meta) => (
            metadata_duration_us(meta, "llm_us", "llm_ms"),
            metadata_duration_us(meta, "ttft_us", "ttft_ms"),
        ),
    }
}

/// The metadata an agent attaches to its answer for `timing`: each time in
/// whole microseconds and in whole milliseconds.
pub open spec fn timing_metadata_of(timing: GenerateTiming) -> Map<Seq<char>, Seq<char>> {
    Map::empty().insert("llm_us"@, decimal(timing.llm_total_us as nat)).insert(
        "llm_ms"@,
        decimal((timing.llm_total_us / 1000) as nat),
    ).insert("ttft_us"@, decimal(timing.time_to_first_token_us as nat)).insert(
        "ttft_ms"@,
        decimal((timing.time_to_first_token_us / 1000) as nat),
    )
}

fn decimal_string(n: u128) -> (s: String)
    ensures
        s@ == decimal(n as nat),
{
    let mut s = String::new();
    push_decimal(&mut s, n);
    assert(s@ =~= decimal(n as nat));
    s
}

/// The metadata an agent attaches to its answer for `timing`.
pub fn timing_metadata(timing: &GenerateTiming) -> (m: Metadata)
    ensures
        m@ == timing_metadata_of(*timing),
{
    let mut m = Metadata::new();
    m.insert(String::from_str("llm_us"), decimal_string(timing.llm_total_us));
    m.insert(String::from_str("llm_ms"), decimal_string(timing.llm_total_us / 1000));
    m.insert(String::from_str("ttft_us"), decimal_string(timing.time_to_first_token_us));
    m.insert(String::from_str("ttft_ms"), decimal_string(timing.time_to_first_token_us / 1000));
    m
}

/// What an agent writes with [`timing_metadata`] is what a reader gets back
/// with [`extract_timing`], and what the router logs as the model time:
/// the same microseconds, for times that fit in a `u64`.
pub proof fn lemma_timing_roundtrip(t: GenerateTiming)
    requires
        t.llm_total_us <= u64::MAX,
        t.time_to_first_token_us <= u64::MAX,
    ensures
        metadata_duration_of(timing_metadata_of(t), "llm_us"@, "llm_ms"@) == t.llm_total_us,
        metadata_duration_of(timing_metadata_of(t), "ttft_us"@, "ttft_ms"@) == t.time_to_first_token_us,
        llm_us_of(timing_metadata_of(t)) == Some(t.llm_total_us as int),
{
    reveal_strlit("llm_us");
    reveal_strlit("llm_ms");
    reveal_strlit("ttft_us");
    reveal_strlit("ttft_ms");
    lemma_parse_decimal(t.llm_total_us as u64);
    lemma_parse_decimal(t.time_to_first_token_us as u64);
    assert("llm_us"@[4] != "llm_ms"@[4]);
    assert("ttft_us"@[5] != "ttft_ms"@[5]);
    assert("llm_us"@.len() != "ttft_us"@.len());
    assert("llm_us"@.len() != "ttft_ms"@.len());
    assert("llm_ms"@.len() != "ttft_us"@.len());
    let m = timing_metadata_of(t);
    assert(m["llm_us"@] == decimal(t.llm_total_us as nat));
    assert(m["ttft_us"@] == decimal(t.time_to_first_token_us as nat));
}

} // verus!
