//! Statistics over the entries of a transport audit log: how many entries
//! match the sessions of interest, how many succeeded, and their summed
//! round-trip and transport times.

use vstd::prelude::*;

use crate::text::str_eq;

verus! {

/// The fields of one audit-log entry that the statistics read; each is
/// absent when the entry lacks it or holds a value of another kind.
#[derive(Debug, Clone)]
pub struct AuditLine {
    /// The session the task belonged to.
    pub session_id: Option<String>,
    /// `"ok"` or `"error"`.
    pub status: Option<String>,
    /// Elapsed time in microseconds.
    pub duration_us: Option<u64>,
    /// Non-model overhead in microseconds.
    pub transport_us: Option<u64>,
}

/// The fields of an audit-log entry, as text and numbers.
pub struct AuditLineView {
    pub session_id: Option<Seq<char>>,
    pub status: Option<Seq<char>>,
    pub duration_us: Option<u64>,
    pub transport_us: Option<u64>,
}

/// The text of an optional string.
pub open spec fn opt_text(o: Option<String>) -> Option<Seq<char>> {
    match o {
        Some(s) => Some(s@),
        None => None,
    }
}

impl View for AuditLine {
    type V = AuditLineView;

    open spec fn view(&self) -> AuditLineView {
        AuditLineView {
            session_id: opt_text(self.session_id),
            status: opt_text(self.status),
            duration_us: self.duration_us,
            transport_us: self.transport_us,
        }
    }
}

/// Totals over the audit-log entries read so far.
#[derive(Debug, Clone, Copy, PartialEq, Eq, Structural)]
pub struct AuditStats {
    /// Log files read.
    pub files: usize,
    /// Entries counted.
    pub entries: usize,
    /// Counted entries with status `"ok"`.
    pub ok: usize,
    /// Counted entries with any other status.
    pub errors: usize,
    /// Sum of the counted entries' round-trip times.
    pub total_duration_us: u64,
    /// Sum of the counted entries' transport times, where recorded.
    pub total_transport_us: u64,
    /// Counted entries that record a transport time.
    pub transport_samples: usize,
    /// Entries skipped because they carry no session while sessions are
    /// filtered.
    pub ignored_without_session: usize,
}

/// All totals zero.
pub open spec fn zero_stats() -> AuditStats {
    AuditStats {
        files: 0,
        entries: 0,
        ok: 0,
        errors: 0,
        total_duration_us: 0,
        total_transport_us: 0,
        transport_samples: 0,
        ignored_without_session: 0,
    }
}

impl Default for AuditStats {
    fn default() -> (s: Self)
        ensures
            s == zero_stats(),
    {
        AuditStats {
            files: 0,
            entries: 0,
            ok: 0,
            errors: 0,
            total_duration_us: 0,
            total_transport_us: 0,
            transport_samples: 0,
            ignored_without_session: 0,
        }
    }
}

/// `sessions` lists `id`.
pub open spec fn lists_session(sessions: Seq<String>, id: Seq<char>) -> bool {
    exists|i: int| 0 <= i < sessions.len() && sessions[i]@ == id
}

/// How an entry fares under the session filter `filter`.
pub enum LineFate {
    /// The entry is counted.
    Counted,
    /// The entry has no session while sessions are filtered: it is skipped
    /// and tallied as such.
    NoSession,
    /// The entry belongs to another session: it is skipped.
    OtherSession,
}

/// The fate of `line` under `filter` (no filter counts every entry).
pub open spec fn line_fate(line: AuditLineView, filter: Option<Seq<String>>) -> LineFate {
    match filter {
        None => LineFate::Counted,
        Some(sessions) => match line.session_id {
            None => LineFate::NoSession,
            Some(id) => if lists_session(sessions, id) {
                LineFate::Counted
            } else {
                LineFate::OtherSession
            },
        },
    }
}

/// The entry's status is `"ok"`.
pub open spec fn is_ok_line(line: AuditLineView) -> bool {
    line.status == Some("ok"@)
}

/// The round-trip time the entry adds: its duration, or zero.
pub open spec fn line_duration(line: AuditLineView) -> nat {
    match line.duration_us {
        Some(d) => d as nat,
        None => 0,
    }
}

/// The totals after reading `line` with the session filter `filter`.
pub open spec fn audit_step(s: AuditStats, line: AuditLineView, filter: Option<Seq<String>>) -> AuditStats {
    match line_fate(line, filter) {
        LineFate::OtherSession => s,
        LineFate::NoSession => AuditStats { ignored_without_session: (s.ignored_without_session + 1) as usize, ..s },
        LineFate::Counted => AuditStats {
            entries: (s.entries + 1) as usize,
            ok: if is_ok_line(line) {
                (s.ok + 1) as usize
            } else {
                s.ok
            },
            errors: if is_ok_line(line) {
                s.errors
            } else {
                (s.errors + 1) as usize
            },
            total_duration_us: (s.total_duration_us + line_duration(line)) as u64,
            total_transport_us: match line.transport_us {
                Some(t) => (s.total_transport_us + t) as u64,
                None => s.total_transport_us,
            },
            transport_samples: match line.transport_us {
                Some(t) => (s.transport_samples + 1) as usize,
                None => s.transport_samples,
            },
            ..s
        },
    }
}

/// Reading `line` keeps every total within its type.
pub open spec fn audit_step_fits(s: AuditStats, line: AuditLineView, filter: Option<Seq<String>>) -> bool {
    match line_fate(line, filter) {
        LineFate::OtherSession => true,
        LineFate::NoSession => s.ignored_without_session + 1 <= usize::MAX,
        LineFate::Counted => {
            &&& s.entries + 1 <= usize::MAX
            &&& s.ok + 1 <= usize::MAX
            &&& s.errors + 1 <= usize::MAX
            &&& s.total_duration_us + line_duration(line) <= u64::MAX
            &&& line.transport_us matches Some(t) ==> s.total_transport_us + t <= u64::MAX
                && s.transport_samples + 1 <= usize::MAX
        },
    }
}

/// The sessions of `filter`, as a sequence.
pub open spec fn filter_view(filter: Option<&Vec<String>>) -> Option<Seq<String>> {
    match filter {
        Some(v) => Some(v@),
        None => None,
    }
}

fn lists(sessions: &Vec<String>, id: &str) -> (r: bool)
    ensures
        r == lists_session(sessions@, id@),
{
    let mut i: usize = 0;
    while i < sessions.len()
        invariant
            i <= sessions@.len(),
            forall|j: int| 0 <= j < i ==> sessions@[j]@ != id@,
        decreases sessions@.len() - i,
    {
        if str_eq(sessions[i].as_str(), id) {
            return true;
        }
        i = i + 1;
    }
    false
}

fn fate(line: &AuditLine, filter: Option<&Vec<String>>) -> (f: LineFate)
    ensures
        f == line_fate(line@, filter_view(filter)),
{
    match filter {
        None => LineFate::Counted,
        Some(sessions) => match &line.session_id {
            None => LineFate::NoSession,
            Some(id) => if lists(sessions, id.as_str()) {
                LineFate::Counted
            } else {
                LineFate::OtherSession
            },
        },
    }
}

impl AuditStats {
    /// Whether reading `line` with the session filter `filter` keeps every
    /// total within its type.
    pub fn can_record(&self, line: &AuditLine, filter: Option<&Vec<String>>) -> (r: bool)
        ensures
            r == audit_step_fits(*self, line@, filter_view(filter)),
    {
        match fate(line, filter) {
            LineFate::OtherSession => true,
            LineFate::NoSession => self.ignored_without_session < usize::MAX,
            LineFate::Counted => {
                let d: u64 = match line.duration_us {
                    Some(d) => d,
                    None => 0,
                };
                let transport_fits = match line.transport_us {
                    Some(t) => t <= u64::MAX - self.total_transport_us && self.transport_samples < usize::MAX,
                    None => true,
                };
                self.entries < usize::MAX && self.ok < usize::MAX && self.errors < usize::MAX && d <= u64::MAX
                    - self.total_duration_us && transport_fits
            },
        }
    }

    /// Adds `line` to the totals. With a session filter, an entry counts
    /// only when its session is listed; one without a session is tallied as
    /// ignored.
    pub fn record(&mut self, line: &AuditLine, filter: Option<&Vec<String>>)
        requires
            audit_step_fits(*old(self), line@, filter_view(filter)),
        ensures
            *final(self) == audit_step(*old(self), line@, filter_view(filter)),
    {
        match fate(line, filter) {
            LineFate::OtherSession => {},
            LineFate::NoSession => {
                self.ignored_without_session = self.ignored_without_session + 1;
            },
            LineFate::Counted => {
                self.entries = self.entries + 1;
                let ok = match &line.status {
                    Some(s) => str_eq(s.as_str(), "ok"),
                    None => false,
                };
                if ok {
                    self.ok = self.ok + 1;
                } else {
                    self.errors = self.errors + 1;
                }
                match line.duration_us {
                    Some(d) => {
                        self.total_duration_us = self.total_duration_us + d;
                    },
                    None => {},
                }
                match line.transport_us {
                    Some(t) => {
                        self.total_transport_us = self.total_transport_us + t;
                        self.transport_samples = self.transport_samples + 1;
                    },
                    None => {},
                }
            },
        }
    }
}

/// Every counted entry is either a success or an error, and at most one
/// transport sample comes with each: reading an entry keeps
/// `ok + errors - entries` unchanged and never raises
/// `transport_samples - entries`, so totals started from zero always have
/// `ok + errors == entries` and `transport_samples <= entries`.
pub proof fn lemma_outcomes_partition_entries(s: AuditStats, line: AuditLineView, filter: Option<Seq<String>>)
    requires
        audit_step_fits(s, line, filter),
    ensures
        audit_step(s, line, filter).ok + audit_step(s, line, filter).errors - audit_step(s, line, filter).entries
            == s.ok + s.errors - s.entries,
        audit_step(s, line, filter).transport_samples - audit_step(s, line, filter).entries
            <= s.transport_samples - s.entries,
{
}

/// What one counted entry adds to the totals: one entry; one success when
/// its status is `"ok"`, else one error; its duration (zero when absent);
/// and, whenever it records a transport time, zero included, that time and
/// exactly one transport sample. An entry of another session changes
/// nothing, and one without a session (while sessions are filtered) only
/// raises the count of ignored entries.
pub proof fn lemma_counted_entry_adds(s: AuditStats, line: AuditLineView, filter: Option<Seq<String>>)
    requires
        audit_step_fits(s, line, filter),
    ensures
        line_fate(line, filter) is Counted ==> {
            let n = audit_step(s, line, filter);
            &&& n.entries == s.entries + 1
            &&& (line.status == Some("ok"@) ==> n.ok == s.ok + 1 && n.errors == s.errors)
            &&& (line.status != Some("ok"@) ==> n.errors == s.errors + 1 && n.ok == s.ok)
            &&& n.total_duration_us == s.total_duration_us + (match line.duration_us {
                Some(d) => d as int,
                None => 0,
            })
            &&& (line.transport_us matches Some(t) ==> n.total_transport_us == s.total_transport_us + t
                && n.transport_samples == s.transport_samples + 1)
            &&& (line.transport_us is None ==> n.total_transport_us == s.total_transport_us
                && n.transport_samples == s.transport_samples)
            &&& n.ignored_without_session == s.ignored_without_session
            &&& n.files == s.files
        },
        line_fate(line, filter) is OtherSession ==> audit_step(s, line, filter) == s,
        line_fate(line, filter) is NoSession ==> audit_step(s, line, filter) == (AuditStats {
            ignored_without_session: (s.ignored_without_session + 1) as usize,
            ..s
        }),
        filter is None ==> line_fate(line, filter) is Counted,
{
}

/// The totals after reading `lines` in order, starting from `s`.
pub open spec fn audit_all(s: AuditStats, lines: Seq<AuditLineView>, filter: Option<Seq<String>>) -> AuditStats
    decreases lines.len(),
{
    if lines.len() == 0 {
        s
    } else {
        audit_step(audit_all(s, lines.drop_last(), filter), lines.last(), filter)
    }
}

/// Reading `lines` in order from `s` keeps every total within its type.
pub open spec fn audit_all_fits(s: AuditStats, lines: Seq<AuditLineView>, filter: Option<Seq<String>>) -> bool
    decreases lines.len(),
{
    lines.len() == 0 || (audit_all_fits(s, lines.drop_last(), filter) && audit_step_fits(
        audit_all(s, lines.drop_last(), filter),
        lines.last(),
        filter,
    ))
}

/// Totals read from zero over any log: every counted entry is a success or
/// an error, and no more entries record a transport time than are counted.
pub proof fn lemma_totals_consistent(s: AuditStats, lines: Seq<AuditLineView>, filter: Option<Seq<String>>)
    requires
        s.ok + s.errors == s.entries,
        s.transport_samples <= s.entries,
        audit_all_fits(s, lines, filter),
    ensures
        audit_all(s, lines, filter).ok + audit_all(s, lines, filter).errors == audit_all(s, lines, filter).entries,
        audit_all(s, lines, filter).transport_samples <= audit_all(s, lines, filter).entries,
    decreases lines.len(),
{
    if lines.len() > 0 {
        lemma_totals_consistent(s, lines.drop_last(), filter);
        lemma_outcomes_partition_entries(audit_all(s, lines.drop_last(), filter), lines.last(), filter);
    }
}

proof fn lemma_fits_prefix(s: AuditStats, a: Seq<AuditLineView>, b: Seq<AuditLineView>, filter: Option<Seq<String>>)
    requires
        audit_all_fits(s, a + b, filter),
    ensures
        audit_all_fits(s, a, filter),
    decreases b.len(),
{
    if b.len() == 0 {
        assert(a + b =~= a);
    } else {
        assert((a + b).drop_last() =~= a + b.drop_last());
        lemma_fits_prefix(s, a, b.drop_last(), filter);
    }
}

// ---------------------------------------------------------------------------
// Reading a log file
// ---------------------------------------------------------------------------

/// The fields that `serde_json` reads from the line `line` of an audit log:
/// `None` when the line is not JSON; otherwise `session_id` and `status`
/// where they are strings, and `duration_us` and `transport_us` where they
/// are integers that fit in a `u64`.
pub uninterp spec fn audit_fields(line: Seq<char>) -> Option<(Option<Seq<char>>, Option<Seq<char>>, Option<u64>, Option<u64>)>;

/// The entry made of the fields `f`.
pub open spec fn entry_of(f: (Option<Seq<char>>, Option<Seq<char>>, Option<u64>, Option<u64>)) -> AuditLineView {
    AuditLineView { session_id: f.0, status: f.1, duration_us: f.2, transport_us: f.3 }
}

/// `serde_json::from_str::<Value>(line)`, then the values of `session_id`,
/// `status` (`Value::as_str`), `duration_us` and `transport_us`
/// (`Value::as_u64`); `None` when the line is not JSON.
#[verifier::external_body]
fn parse_audit_line(line: &str) -> (r: Option<AuditLine>)
    ensures
        match audit_fields(line@) {
            None => r is None,
            Some(f) => r matches Some(l) && l@ == entry_of(f),
        },
{
    let v: serde_json::Value = serde_json::from_str(line).ok()?;
    Some(AuditLine {
        session_id: v["session_id"].as_str().map(str::to_string),
        status: v["status"].as_str().map(str::to_string),
        duration_us: v["duration_us"].as_u64(),
        transport_us: v["transport_us"].as_u64(),
    })
}

/// `line` without one trailing carriage return.
pub open spec fn strip_cr(line: Seq<char>) -> Seq<char> {
    if line.len() > 0 && line.last() == '\r' {
        line.drop_last()
    } else {
        line
    }
}

/// The lines of `s`, following a line `cur` already begun: a line ends at
/// each line feed, which is dropped together with a carriage return just
/// before it; a last line without a line feed counts when it is not empty.
pub open spec fn lines_after(s: Seq<char>, cur: Seq<char>) -> Seq<Seq<char>>
    decreases s.len(),
{
    if s.len() == 0 {
        if cur.len() == 0 {
            Seq::empty()
        } else {
            seq![cur]
        }
    } else if s[0] == '\n' {
        seq![strip_cr(cur)] + lines_after(s.drop_first(), Seq::empty())
    } else {
        lines_after(s.drop_first(), cur.push(s[0]))
    }
}

/// The lines of the text `s`, as `str::lines` gives them.
pub open spec fn text_lines(s: Seq<char>) -> Seq<Seq<char>> {
    lines_after(s, Seq::empty())
}

/// The entries of an audit log made of `lines`: each non-empty line that
/// is JSON, in order.
pub open spec fn log_entries(lines: Seq<Seq<char>>) -> Seq<AuditLineView>
    decreases lines.len(),
{
    if lines.len() == 0 {
        Seq::empty()
    } else {
        let before = log_entries(lines.drop_last());
        let line = lines.last();
        if line.len() > 0 && audit_fields(line) is Some {
            before.push(entry_of(audit_fields(line).unwrap()))
        } else {
            before
        }
    }
}

proof fn lemma_log_entries_append(a: Seq<Seq<char>>, b: Seq<Seq<char>>)
    ensures
        log_entries(a + b) == log_entries(a) + log_entries(b),
    decreases b.len(),
{
    if b.len() == 0 {
        assert(a + b =~= a);
        assert(log_entries(a) + log_entries(b) =~= log_entries(a));
    } else {
        assert((a + b).drop_last() =~= a + b.drop_last());
        lemma_log_entries_append(a, b.drop_last());
        let line = b.last();
        assert((a + b).last() == line);
        if line.len() > 0 && audit_fields(line) is Some {
            assert(log_entries(a) + log_entries(b) =~= (log_entries(a) + log_entries(b.drop_last())).push(
                entry_of(audit_fields(line).unwrap()),
            ));
        }
    }
}

/// Takes one line of the log into `acc`: `Ok` with the new totals, or
/// `Err` when the entry would overflow a total.
fn take_line_into(acc: AuditStats, line: &str, filter: Option<&Vec<String>>) -> (r: Result<AuditStats, ()>)
    ensures
        line@.len() > 0 && audit_fields(line@) is Some ==> {
            let e = entry_of(audit_fields(line@).unwrap());
            &&& r is Ok <==> audit_step_fits(acc, e, filter_view(filter))
            &&& r matches Ok(t) ==> t == audit_step(acc, e, filter_view(filter))
        },
        !(line@.len() > 0 && audit_fields(line@) is Some) ==> r == Ok::<AuditStats, ()>(acc),
{
    if line.unicode_len() == 0 {
        return Ok(acc);
    }
    match parse_audit_line(line) {
        None => Ok(acc),
        Some(entry) => {
            if acc.can_record(&entry, filter) {
                let mut t = acc;
                t.record(&entry, filter);
                Ok(t)
            } else {
                Err(())
            }
        },
    }
}

fn line_without_cr(cur: &String) -> (r: String)
    ensures
        r@ == strip_cr(cur@),
{
    let n = cur.as_str().unicode_len();
    if n > 0 && cur.as_str().get_char(n - 1) == '\r' {
        let r = String::from_str(cur.as_str().substring_char(0, n - 1));
        assert(r@ =~= cur@.drop_last());
        r
    } else {
        let r = String::from_str(cur.as_str().substring_char(0, n));
        assert(r@ =~= cur@);
        r
    }
}

/// The totals after reading the NDJSON text `content` from `start`, or
/// `None` when some entry would overflow a total.
fn fold_ndjson(start: AuditStats, content: &str, filter: Option<&Vec<String>>) -> (r: Option<AuditStats>)
    ensures
        audit_all_fits(start, log_entries(text_lines(content@)), filter_view(filter)) ==> r == Some(
            audit_all(start, log_entries(text_lines(content@)), filter_view(filter)),
        ),
        !audit_all_fits(start, log_entries(text_lines(content@)), filter_view(filter)) ==> r is None,
{
    let ghost s = content@;
    let ghost fv = filter_view(filter);
    let mut acc = start;
    let mut cur = String::new();
    let ghost mut done: Seq<Seq<char>> = Seq::empty();
    let ghost mut i: int = 0;
    let mut it = content.chars();
    assert(cur@ =~= Seq::<char>::empty());
    assert(s.skip(0) =~= s);
    loop
        invariant
            0 <= i <= s.len(),
            s == content@,
            fv == filter_view(filter),
            vstd::std_specs::iter::IteratorSpec::remaining(&it) == s.skip(i),
            done + lines_after(s.skip(i), cur@) == text_lines(s),
            audit_all_fits(start, log_entries(done), fv),
            acc == audit_all(start, log_entries(done), fv),
        ensures
            i == s.len(),
            done + lines_after(s.skip(i), cur@) == text_lines(s),
            audit_all_fits(start, log_entries(done), fv),
            acc == audit_all(start, log_entries(done), fv),
        decreases s.len() - i,
    {
        let ghost rem = vstd::std_specs::iter::IteratorSpec::remaining(&it);
        let next = it.next();
        match next {
            None => {
                assert(rem.len() == 0);
                break;
            },
            Some(c) => {
                assert(rem.len() > 0);
                assert(c == s[i]);
                assert(s.skip(i).drop_first() =~= s.skip(i + 1));
                if c == '\n' {
                    let line = line_without_cr(&cur);
                    proof {
                        assert(done + lines_after(s.skip(i), cur@) =~= done.push(line@) + lines_after(
                            s.skip(i + 1),
                            Seq::empty(),
                        ));
                        assert(done.push(line@) =~= done + seq![line@]);
                        lemma_log_entries_append(done, seq![line@]);
                        assert(seq![line@].drop_last() =~= Seq::<Seq<char>>::empty());
                    }
                    match take_line_into(acc, line.as_str(), filter) {
                        Ok(t) => {
                            acc = t;
                        },
                        Err(()) => {
                            proof {
                                let rest = lines_after(s.skip(i + 1), Seq::empty());
                                assert(done.push(line@) + rest == text_lines(s));
                                lemma_log_entries_append(done.push(line@), rest);
                                let pre = log_entries(done);
                                assert(done.push(line@).drop_last() =~= done);
                                assert(done.push(line@).last() == line@);
                                let e = entry_of(audit_fields(line@).unwrap());
                                assert(log_entries(done.push(line@)) =~= pre.push(e));
                                assert(pre.push(e).drop_last() =~= pre);
                                if audit_all_fits(start, log_entries(text_lines(s)), fv) {
                                    lemma_fits_prefix(start, log_entries(done.push(line@)), log_entries(rest), fv);
                                    assert(audit_step_fits(audit_all(start, pre, fv), e, fv));
                                }
                            }
                            return None;
                        },
                    }
                    proof {
                        let pre = log_entries(done);
                        assert(done.push(line@).drop_last() =~= done);
                        assert(done.push(line@).last() == line@);
                        if line@.len() > 0 && audit_fields(line@) is Some {
                            let e = entry_of(audit_fields(line@).unwrap());
                            assert(log_entries(done.push(line@)) =~= pre.push(e));
                            assert(pre.push(e).drop_last() =~= pre);
                        } else {
                            assert(log_entries(done.push(line@)) =~= pre);
                        }
                        done = done.push(line@);
                    }
                    cur = String::new();
                    assert(cur@ =~= Seq::<char>::empty());
                } else {
                    crate::text::push_char(&mut cur, c);
                }
                proof {
                    i = i + 1;
                }
            },
        }
    }
    proof {
        assert(s.skip(i).len() == 0);
    }
    if cur.as_str().unicode_len() == 0 {
        proof {
            assert(done + lines_after(s.skip(i), cur@) =~= done);
        }
        return Some(acc);
    }
    proof {
        assert(done + lines_after(s.skip(i), cur@) =~= done.push(cur@));
        let pre = log_entries(done);
        assert(done.push(cur@).drop_last() =~= done);
        assert(done.push(cur@).last() == cur@);
        if audit_fields(cur@) is Some {
            let e = entry_of(audit_fields(cur@).unwrap());
            assert(log_entries(done.push(cur@)) =~= pre.push(e));
            assert(pre.push(e).drop_last() =~= pre);
        } else {
            assert(log_entries(done.push(cur@)) =~= pre);
        }
    }
    match take_line_into(acc, cur.as_str(), filter) {
        Ok(t) => Some(t),
        Err(()) => None,
    }
}

impl AuditStats {
    /// Whether reading the NDJSON log text `content` with the session
    /// filter `filter` keeps every total within its type.
    pub fn can_record_ndjson(&self, content: &str, filter: Option<&Vec<String>>) -> (r: bool)
        ensures
            r == audit_all_fits(*self, log_entries(text_lines(content@)), filter_view(filter)),
    {
        fold_ndjson(*self, content, filter).is_some()
    }

    /// Adds every entry of the NDJSON log text `content` to the totals, in
    /// order: each non-empty line that is JSON is one entry; other lines
    /// are skipped.
    pub fn record_ndjson(&mut self, content: &str, filter: Option<&Vec<String>>)
        requires
            audit_all_fits(*old(self), log_entries(text_lines(content@)), filter_view(filter)),
        ensures
            *final(self) == audit_all(*old(self), log_entries(text_lines(content@)), filter_view(filter)),
    {
        match fold_ndjson(*self, content, filter) {
            Some(t) => {
                *self = t;
            },
            None => {},
        }
    }
}

} // verus!
