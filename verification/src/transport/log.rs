//! Transport audit log: entries, the writer's file-rotation decisions,
//! timing fields taken from response metadata, and UTC timestamps.

use vstd::prelude::*;
use std::path::PathBuf;

use crate::protocol::metadata::Metadata;
use crate::protocol::types::TaskResponse;
use crate::text::{
    all_digits, digits_value, lemma_zero_padded_reads_back, parse_u64, parse_u64_spec, pow10, push_char,
    push_zero_padded, zero_padded,
};

verus! {

#[verifier::external_type_specification]
#[verifier::external_body]
pub struct ExPathBuf(std::path::PathBuf);

/// `PathBuf::clone` gives a path equal to the one cloned.
pub assume_specification[ <std::path::PathBuf as std::clone::Clone>::clone ](p: &std::path::PathBuf) -> (r:
    std::path::PathBuf)
    ensures
        r == *p,
;

// ---------------------------------------------------------------------------
// Entries
// ---------------------------------------------------------------------------

/// Which transport protocol an entry was recorded on.
#[non_exhaustive]
#[derive(Debug, Clone, Copy, PartialEq, Eq, Structural)]
pub enum TransportKind {
    /// Fast binary path over a Unix domain socket.
    Fast,
    /// A2A-compatible JSON-RPC 2.0 over HTTP.
    A2a,
}

/// Direction of the logged operation, seen from the local process.
#[non_exhaustive]
#[derive(Debug, Clone, Copy, PartialEq, Eq, Structural)]
pub enum Direction {
    /// A task request was received (server side).
    Inbound,
    /// A task request was sent (client side).
    Outbound,
}

/// A single transport audit event.
#[derive(Debug)]
pub struct LogEntry {
    /// ISO-8601 UTC timestamp of the event.
    pub ts: String,
    /// Which transport was used.
    pub transport: TransportKind,
    /// Inbound (server) or outbound (client).
    pub direction: Direction,
    /// Task id copied from the request.
    pub task_id: String,
    /// Session id copied from the request.
    pub session_id: Option<String>,
    /// Elapsed time in microseconds (round trip, or handler time inbound).
    pub duration_us: u64,
    /// Time the remote agent reports having spent on LLM inference.
    pub llm_us: Option<u64>,
    /// `duration_us - llm_us` (saturating), when `llm_us` is known.
    pub transport_us: Option<u64>,
    /// `"ok"` or `"error"`.
    pub status: &'static str,
    /// Error description, present only when `status` is `"error"`.
    pub error: Option<String>,
    /// Serialised payload size in bytes, when measurable.
    pub payload_bytes: Option<usize>,
}

/// The value of `key` in `m` read as a decimal `u64`, if present and valid.
pub open spec fn parsed_value(m: Map<Seq<char>, Seq<char>>, key: Seq<char>) -> Option<u64> {
    if m.contains_key(key) {
        parse_u64_spec(m[key])
    } else {
        None
    }
}

/// LLM time in microseconds reported by metadata `m`: `llm_us` if it holds
/// a number, otherwise `llm_ms` times 1000.
pub open spec fn llm_us_of(m: Map<Seq<char>, Seq<char>>) -> Option<int> {
    match parsed_value(m, "llm_us"@) {
        Some(us) => Some(us as int),
        None => match parsed_value(m, "llm_ms"@) {
            Some(ms) => Some(ms * 1000),
            None => None,
        },
    }
}

/// The LLM time that `m` reports fits in a `u64`.
pub open spec fn llm_timing_fits(m: Map<Seq<char>, Seq<char>>) -> bool {
    llm_us_of(m) matches Some(v) ==> v <= u64::MAX
}

pub(crate) fn parsed_entry(meta: &Metadata, key: &str) -> (r: Option<u64>)
    ensures
        r == parsed_value(meta@, key@),
{
    match meta.get(key) {
        Some(v) => parse_u64(v.as_str()),
        None => None,
    }
}

/// Whether the LLM time reported by `meta` fits in a `u64`.
pub fn llm_timing_in_range(meta: &Metadata) -> (r: bool)
    ensures
        r == llm_timing_fits(meta@),
{
    match parsed_entry(meta, "llm_us") {
        Some(_) => true,
        None => match parsed_entry(meta, "llm_ms") {
            Some(ms) => ms <= u64::MAX / 1000,
            None => true,
        },
    }
}

/// The LLM time in microseconds that `meta` reports.
pub fn llm_us_from_metadata(meta: &Metadata) -> (r: Option<u64>)
    requires
        llm_timing_fits(meta@),
    ensures
        r matches Some(v) ==> llm_us_of(meta@) == Some(v as int),
        r is None ==> llm_us_of(meta@) is None,
{
    match parsed_entry(meta, "llm_us") {
        Some(us) => Some(us),
        None => match parsed_entry(meta, "llm_ms") {
            Some(ms) => Some(ms * 1000),
            None => None,
        },
    }
}

/// The metadata of the response a successful dispatch got back, if it got
/// a response with metadata.
pub open spec fn outcome_metadata(outcome: Result<Option<&TaskResponse>, String>) -> Option<Metadata> {
    match outcome {
        Ok(Some(resp)) => resp.metadata,
        _ => None,
    }
}

/// The entry recording one outbound task dispatch over `transport` that
/// took `duration_us` and ended in `outcome`: success, with the response
/// when the reply was one, or the error's description.
pub fn outbound_log_entry(
    ts: String,
    transport: TransportKind,
    task_id: String,
    session_id: Option<String>,
    duration_us: u64,
    outcome: Result<Option<&TaskResponse>, String>,
) -> (e: LogEntry)
    requires
        outcome_metadata(outcome) matches Some(m) ==> llm_timing_fits(m@),
    ensures
        e.ts == ts,
        e.transport == transport,
        e.direction == Direction::Outbound,
        e.task_id == task_id,
        e.session_id == session_id,
        e.duration_us == duration_us,
        e.llm_us == (match outcome_metadata(outcome) {
            Some(m) => match llm_us_of(m@) {
                Some(v) => Some(v as u64),
                None => None,
            },
            None => None,
        }),
        e.transport_us == (match e.llm_us {
            Some(l) => Some(if duration_us >= l { (duration_us - l) as u64 } else { 0u64 }),
            None => None,
        }),
        outcome is Ok ==> e.status@ == "ok"@ && e.error is None,
        outcome matches Err(msg) ==> e.status@ == "error"@ && e.error == Some(msg),
        e.payload_bytes is None,
{
    let llm_us = match &outcome {
        Ok(Some(resp)) => match &resp.metadata {
            Some(m) => llm_us_from_metadata(m),
            None => None,
        },
        _ => None,
    };
    let transport_us = match llm_us {
        Some(l) => Some(duration_us.saturating_sub(l)),
        None => None,
    };
    let (status, error) = match outcome {
        Ok(_) => ("ok", None),
        Err(msg) => ("error", Some(msg)),
    };
    LogEntry {
        ts,
        transport,
        direction: Direction::Outbound,
        task_id,
        session_id,
        duration_us,
        llm_us,
        transport_us,
        status,
        error,
        payload_bytes: None,
    }
}

/// The entry recording one inbound task handled over `transport` in
/// `duration_us`; `error` describes the failure, if the handler failed.
pub fn inbound_log_entry(
    ts: String,
    transport: TransportKind,
    task_id: String,
    session_id: Option<String>,
    duration_us: u64,
    error: Option<String>,
) -> (e: LogEntry)
    ensures
        e.ts == ts,
        e.transport == transport,
        e.direction == Direction::Inbound,
        e.task_id == task_id,
        e.session_id == session_id,
        e.duration_us == duration_us,
        e.llm_us is None,
        e.transport_us is None,
        error is None ==> e.status@ == "ok"@,
        error is Some ==> e.status@ == "error"@,
        e.error == error,
        e.payload_bytes is None,
{
    let status = match &error {
        Some(_) => "error",
        None => "ok",
    };
    LogEntry {
        ts,
        transport,
        direction: Direction::Inbound,
        task_id,
        session_id,
        duration_us,
        llm_us: None,
        transport_us: None,
        status,
        error,
        payload_bytes: None,
    }
}

// ---------------------------------------------------------------------------
// Logger configuration
// ---------------------------------------------------------------------------

/// Builder for the transport logger's settings.
pub struct TransportLoggerBuilder {
    log_dir: Option<PathBuf>,
    max_entries: usize,
    channel_capacity: usize,
}

/// The settings held by a [`TransportLoggerBuilder`].
pub struct LoggerSettings {
    /// Directory for the log files, once given.
    pub log_dir: Option<PathBuf>,
    /// Lines per file before a new file is opened.
    pub max_entries: usize,
    /// Capacity of the channel in front of the writer.
    pub channel_capacity: usize,
}

impl View for TransportLoggerBuilder {
    type V = LoggerSettings;

    closed spec fn view(&self) -> LoggerSettings {
        LoggerSettings {
            log_dir: self.log_dir,
            max_entries: self.max_entries,
            channel_capacity: self.channel_capacity,
        }
    }
}

/// Settings of a logger ready to start: where to write, lines per file and
/// channel capacity.
pub struct WriterConfig {
    /// Directory for the log files.
    pub log_dir: PathBuf,
    /// Lines per file before a new file is opened (at least 1).
    pub max_entries: usize,
    /// Capacity of the channel in front of the writer (at least 1).
    pub channel_capacity: usize,
}

impl TransportLoggerBuilder {
    #[verifier::type_invariant]
    spec fn limits_positive(&self) -> bool {
        self.max_entries >= 1 && self.channel_capacity >= 1
    }
}

impl Default for TransportLoggerBuilder {
    fn default() -> (b: Self)
        ensures
            b@.log_dir is None,
            b@.max_entries == 1000,
            b@.channel_capacity == 4096,
    {
        TransportLoggerBuilder { log_dir: None, max_entries: 1000, channel_capacity: 4096 }
    }
}

impl TransportLoggerBuilder {
    /// A builder with no directory, 1000 lines per file and a channel of
    /// 4096 entries.
    pub fn new() -> (b: Self)
        ensures
            b@.log_dir is None,
            b@.max_entries == 1000,
            b@.channel_capacity == 4096,
    {
        Self::default()
    }

    /// Sets the directory where log files are created.
    pub fn log_dir(self, path: PathBuf) -> (b: Self)
        ensures
            b@.log_dir == Some(path),
            b@.max_entries == self@.max_entries,
            b@.channel_capacity == self@.channel_capacity,
    {
        proof {
            use_type_invariant(&self);
        }
        TransportLoggerBuilder { log_dir: Some(path), ..self }
    }

    /// Sets the number of lines per file; 0 counts as 1.
    pub fn max_entries(self, n: usize) -> (b: Self)
        ensures
            b@.log_dir == self@.log_dir,
            b@.max_entries == if n >= 1 { n } else { 1 },
            b@.channel_capacity == self@.channel_capacity,
    {
        proof {
            use_type_invariant(&self);
        }
        let n = if n >= 1 { n } else { 1 };
        TransportLoggerBuilder { max_entries: n, ..self }
    }

    /// Sets the channel capacity; 0 counts as 1.
    pub fn channel_capacity(self, n: usize) -> (b: Self)
        ensures
            b@.log_dir == self@.log_dir,
            b@.max_entries == self@.max_entries,
            b@.channel_capacity == if n >= 1 { n } else { 1 },
    {
        proof {
            use_type_invariant(&self);
        }
        let n = if n >= 1 { n } else { 1 };
        TransportLoggerBuilder { channel_capacity: n, ..self }
    }

    /// The settings to start a writer with, or `None` when no directory was
    /// given.
    pub fn writer_config(self) -> (c: Option<WriterConfig>)
        ensures
            c is None <==> self@.log_dir is None,
            c matches Some(c) ==> {
                &&& self@.log_dir == Some(c.log_dir)
                &&& c.max_entries == self@.max_entries
                &&& c.channel_capacity == self@.channel_capacity
                &&& c.max_entries >= 1
                &&& c.channel_capacity >= 1
            },
    {
        proof {
            use_type_invariant(&self);
        }
        match self.log_dir {
            Some(dir) => Some(
                WriterConfig { log_dir: dir, max_entries: self.max_entries, channel_capacity: self.channel_capacity },
            ),
            None => None,
        }
    }
}


// ---------------------------------------------------------------------------
// Writer: file rotation
// ---------------------------------------------------------------------------

/// What the log writer has just observed.
#[derive(Debug, Clone, Copy, PartialEq, Eq, Structural)]
pub enum WriterEvent {
    /// An entry arrived from the channel.
    EntryReady,
    /// A new log file was opened.
    FileOpened,
    /// Opening a new log file failed.
    OpenFailed,
    /// The entry's line was appended to the current file.
    LineWritten,
    /// Appending to the current file failed.
    WriteFailed,
    /// The entry could not be rendered as a line.
    EncodeFailed,
}

/// What the log writer must do next.
#[derive(Debug, Clone, Copy, PartialEq, Eq, Structural)]
pub enum WriterAction {
    /// Open a new log file, then report `FileOpened` or `OpenFailed`.
    OpenFile,
    /// Render the entry and append it to the current file, then report
    /// `LineWritten`, `WriteFailed` or `EncodeFailed`.
    WriteLine,
    /// Give up on this entry.
    DropEntry,
    /// Wait for the next entry.
    Await,
}

/// The log writer's state: whether a file is open and how many lines it
/// holds, with the number of lines after which a new file is started.
#[derive(Debug, Clone, Copy)]
pub struct WriterState {
    /// Lines written to the current file.
    pub lines_in_file: usize,
    /// Whether a file is open for appending.
    pub file_open: bool,
    /// Lines per file (at least 1).
    pub max_entries: usize,
}

/// The state after `event`, and what to do next.
pub open spec fn writer_step(s: WriterState, event: WriterEvent) -> (WriterState, WriterAction) {
    match event {
        WriterEvent::EntryReady => if !s.file_open || s.lines_in_file >= s.max_entries {
            (s, WriterAction::OpenFile)
        } else {
            (s, WriterAction::WriteLine)
        },
        WriterEvent::FileOpened => (WriterState { lines_in_file: 0, file_open: true, ..s }, WriterAction::WriteLine),
        WriterEvent::OpenFailed => (s, WriterAction::DropEntry),
        WriterEvent::LineWritten => (
            WriterState { lines_in_file: (s.lines_in_file + 1) as usize, ..s },
            WriterAction::Await,
        ),
        WriterEvent::WriteFailed => (WriterState { file_open: false, ..s }, WriterAction::Await),
        WriterEvent::EncodeFailed => (s, WriterAction::Await),
    }
}

impl WriterState {
    /// The state of a writer that has not opened any file yet.
    pub fn new(max_entries: usize) -> (s: Self)
        requires
            max_entries >= 1,
        ensures
            s.lines_in_file == 0,
            !s.file_open,
            s.max_entries == max_entries,
    {
        WriterState { lines_in_file: 0, file_open: false, max_entries }
    }

    /// Applies `event` and returns what to do next.
    pub fn step(&mut self, event: WriterEvent) -> (a: WriterAction)
        requires
            event == WriterEvent::LineWritten ==> old(self).lines_in_file < usize::MAX,
        ensures
            (*final(self), a) == writer_step(*old(self), event),
    {
        match event {
            WriterEvent::EntryReady => {
                if !self.file_open || self.lines_in_file >= self.max_entries {
                    WriterAction::OpenFile
                } else {
                    WriterAction::WriteLine
                }
            },
            WriterEvent::FileOpened => {
                self.lines_in_file = 0;
                self.file_open = true;
                WriterAction::WriteLine
            },
            WriterEvent::OpenFailed => WriterAction::DropEntry,
            WriterEvent::LineWritten => {
                self.lines_in_file = self.lines_in_file + 1;
                WriterAction::Await
            },
            WriterEvent::WriteFailed => {
                self.file_open = false;
                WriterAction::Await
            },
            WriterEvent::EncodeFailed => WriterAction::Await,
        }
    }
}

/// One entry handled when every open and every write succeeds: the writer
/// opens a new file when it must, then writes the entry's line. Returns
/// the new state and whether a new file was opened.
pub open spec fn handle_entry_ok(s: WriterState) -> (WriterState, bool) {
    let (s1, a) = writer_step(s, WriterEvent::EntryReady);
    if a == WriterAction::OpenFile {
        (writer_step(writer_step(s1, WriterEvent::FileOpened).0, WriterEvent::LineWritten).0, true)
    } else {
        (writer_step(s1, WriterEvent::LineWritten).0, false)
    }
}

/// The writer's state after `n` entries, every open and write succeeding,
/// and the file each entry's line went to: files are numbered from 0 in
/// the order they are opened, and a line written to a file that was open
/// before the run counts as file -1.
pub open spec fn run_entries_ok(s: WriterState, n: nat) -> (WriterState, Seq<int>)
    decreases n,
{
    if n == 0 {
        (s, Seq::empty())
    } else {
        let (t, files) = run_entries_ok(s, (n - 1) as nat);
        let (u, opened) = handle_entry_ok(t);
        let current = if files.len() == 0 {
            -1
        } else {
            files.last()
        };
        (u, files.push(if opened { current + 1 } else { current }))
    }
}

/// Over a whole run of a new writer with `k` lines per file, where every
/// open and write succeeds: the `i`-th entry's line goes to file `i / k`,
/// so file `j` holds exactly entries `j * k` up to `(j + 1) * k - 1`, in
/// order; a new file is opened exactly when the current one holds `k`
/// lines; and the last file holds the remaining `n - ((n - 1) / k) * k`.
pub proof fn lemma_run_fills_files_in_order(k: usize, n: nat)
    requires
        k >= 1,
    ensures
        run_entries_ok(WriterState { lines_in_file: 0, file_open: false, max_entries: k }, n).1.len() == n,
        forall|i: int|
            0 <= i < n ==> #[trigger] run_entries_ok(
                WriterState { lines_in_file: 0, file_open: false, max_entries: k },
                n,
            ).1[i] == i / (k as int),
        n > 0 ==> {
            let st = run_entries_ok(WriterState { lines_in_file: 0, file_open: false, max_entries: k }, n).0;
            &&& st.file_open
            &&& st.max_entries == k
            &&& st.lines_in_file == n - ((n - 1) / (k as int)) * (k as int)
            &&& 1 <= st.lines_in_file <= k
        },
    decreases n,
{
    let s0 = WriterState { lines_in_file: 0, file_open: false, max_entries: k };
    if n > 0 {
        let m = (n - 1) as nat;
        lemma_run_fills_files_in_order(k, m);
        let (t, files) = run_entries_ok(s0, m);
        let ki = k as int;
        if m == 0 {
            assert(files.len() == 0);
            assert(0int / ki == 0) by (nonlinear_arith)
                requires ki >= 1;
        } else {
            let q = (m - 1) / ki;
            let r = (m - 1) % ki;
            vstd::arithmetic::div_mod::lemma_fundamental_div_mod(m - 1, ki);
            assert(0 <= r < ki) by (nonlinear_arith)
                requires r == (m - 1) % ki, ki >= 1;
            assert(t.lines_in_file == r + 1) by (nonlinear_arith)
                requires t.lines_in_file == m - q * ki, m - 1 == ki * q + r;
            assert(files.last() == files[m - 1]);
            assert(files[m - 1] == q);
            if r + 1 == ki {
                assert(m as int == (q + 1) * ki + 0) by (nonlinear_arith)
                    requires m - 1 == ki * q + r, r + 1 == ki;
                vstd::arithmetic::div_mod::lemma_fundamental_div_mod_converse(m as int, ki, q + 1, 0);
            } else {
                assert(m as int == q * ki + (r + 1)) by (nonlinear_arith)
                    requires m - 1 == ki * q + r;
                vstd::arithmetic::div_mod::lemma_fundamental_div_mod_converse(m as int, ki, q, r + 1);
            }
        }
        let (u, all) = run_entries_ok(s0, n);
        assert(all == files.push(all.last()));
        assert forall|i: int| 0 <= i < n implies #[trigger] all[i] == i / ki by {
            if i < m {
                assert(all[i] == files[i]);
            }
        }
    }
}

/// A line is only ever written to an open file that holds fewer than
/// `max_entries` lines, so no file grows beyond `max_entries` lines: every
/// step keeps `lines_in_file <= max_entries`, and a full or missing file
/// makes the writer open a new one before writing.
pub proof fn lemma_rotation_keeps_files_bounded(s: WriterState, event: WriterEvent)
    requires
        s.max_entries >= 1,
        s.lines_in_file <= s.max_entries,
        event == WriterEvent::LineWritten ==> s.file_open && s.lines_in_file < s.max_entries,
    ensures
        writer_step(s, event).0.lines_in_file <= writer_step(s, event).0.max_entries,
        writer_step(s, event).0.max_entries == s.max_entries,
        writer_step(s, event).1 == WriterAction::WriteLine ==> {
            &&& writer_step(s, event).0.file_open
            &&& writer_step(s, event).0.lines_in_file < s.max_entries
        },
        event == WriterEvent::EntryReady ==> (writer_step(s, event).1 == WriterAction::OpenFile <==> (
        !s.file_open || s.lines_in_file == s.max_entries)),
{
}

// ---------------------------------------------------------------------------
// Calendar and timestamps
// ---------------------------------------------------------------------------

/// Whether `y` is a leap year of the Gregorian calendar.
pub open spec fn is_leap_year(y: int) -> bool {
    y % 4 == 0 && (y % 100 != 0 || y % 400 == 0)
}

/// The number of leap years among the years `1..=n`.
pub open spec fn leap_years_through(n: int) -> int {
    n / 4 - n / 100 + n / 400
}

/// Days of the year before the first day of month `m`, ignoring 29 February.
pub open spec fn days_before_month(m: int) -> int {
    if m == 1 {
        0
    } else if m == 2 {
        31
    } else if m == 3 {
        59
    } else if m == 4 {
        90
    } else if m == 5 {
        120
    } else if m == 6 {
        151
    } else if m == 7 {
        181
    } else if m == 8 {
        212
    } else if m == 9 {
        243
    } else if m == 10 {
        273
    } else if m == 11 {
        304
    } else {
        334
    }
}

/// The number of days in month `m` of year `y`.
pub open spec fn days_in_month(y: int, m: int) -> int {
    if m == 2 {
        if is_leap_year(y) {
            29
        } else {
            28
        }
    } else if m == 4 || m == 6 || m == 9 || m == 11 {
        30
    } else {
        31
    }
}

/// Days from 1970-01-01 to the date `y`-`m`-`d` of the Gregorian calendar.
pub open spec fn days_since_epoch(y: int, m: int, d: int) -> int {
    365 * (y - 1970) + (leap_years_through(y - 1) - leap_years_through(1969)) + days_before_month(m) + (if m
        > 2 && is_leap_year(y) {
        1int
    } else {
        0int
    }) + d - 1
}

/// A valid date of the Gregorian calendar.
pub open spec fn is_valid_date(y: int, m: int, d: int) -> bool {
    1 <= m <= 12 && 1 <= d <= days_in_month(y, m)
}

proof fn lemma_year_of_era(doe: int, yoe: int, doy: int)
    by (nonlinear_arith)
    requires
        0 <= doe < 146097,
        yoe == (doe - doe / 1460 + doe / 36524 - doe / 146096) / 365,
        doy == doe - (365 * yoe + yoe / 4 - yoe / 100),
    ensures
        0 <= yoe <= 399,
        0 <= doy <= 365,
        doy == 365 ==> (yoe + 1) % 4 == 0 && ((yoe + 1) % 100 != 0 || yoe == 399),
{
}

proof fn lemma_month_of_year(doy: int, mp: int, d: int, mo: int)
    by (nonlinear_arith)
    requires
        0 <= doy <= 365,
        mp == (5 * doy + 2) / 153,
        d == doy - (153 * mp + 2) / 5 + 1,
        mo == if mp < 10 { mp + 3 } else { mp - 9 },
    ensures
        0 <= mp <= 11,
        1 <= mo <= 12,
        1 <= d <= 31,
        mo != 2 ==> d <= days_in_month(2001, mo),
        mo == 2 ==> d <= 29,
        mo == 2 && d == 29 ==> doy == 365,
        doy == (153 * mp + 2) / 5 + d - 1,
{
}

proof fn lemma_month_offset(mo: int, mp: int)
    requires
        0 <= mp <= 11,
        mo == if mp < 10 { mp + 3 } else { mp - 9 },
    ensures
        (if mo > 2 { days_before_month(mo) } else { 365 + days_before_month(mo) }) == 59 + (153 * mp + 2)
            / 5,
{
    assert((153 * mp + 2) / 5 == if mp == 0 {
        0int
    } else if mp == 1 {
        31
    } else if mp == 2 {
        61
    } else if mp == 3 {
        92
    } else if mp == 4 {
        122
    } else if mp == 5 {
        153
    } else if mp == 6 {
        184
    } else if mp == 7 {
        214
    } else if mp == 8 {
        245
    } else if mp == 9 {
        275
    } else if mp == 10 {
        306
    } else {
        337
    }) by (nonlinear_arith)
        requires
            0 <= mp <= 11,
    ;
}

proof fn lemma_leap_shift(y: int)
    by (nonlinear_arith)
    requires
        y >= 1,
    ensures
        leap_years_through(y - 1) + (if is_leap_year(y) {
            1int
        } else {
            0int
        }) == leap_years_through(y),
{
}

proof fn lemma_leap_era(era: int, yoe: int)
    by (nonlinear_arith)
    requires
        era >= 0,
        0 <= yoe < 400,
    ensures
        leap_years_through(era * 400 + yoe) == 97 * era + yoe / 4 - yoe / 100,
        (era * 400 + yoe) % 4 == yoe % 4,
        (era * 400 + yoe) % 100 == yoe % 100,
        (era * 400 + yoe) % 400 == yoe,
{
}

/// The calendar date `(year, month, day)` that lies `days` days after
/// 1970-01-01.
pub fn days_to_ymd(days: u64) -> (r: (u64, u64, u64))
    requires
        days + 719_468 <= u64::MAX,
    ensures
        is_valid_date(r.0 as int, r.1 as int, r.2 as int),
        days_since_epoch(r.0 as int, r.1 as int, r.2 as int) == days,
{
    let z = days + 719_468;
    let era = z / 146_097;
    let doe = z % 146_097;
    let yoe = (doe - doe / 1_460 + doe / 36_524 - doe / 146_096) / 365;
    proof {
        lemma_year_of_era(doe as int, yoe as int, doe - (365 * yoe + yoe / 4 - yoe / 100));
        assert(era * 400 <= z) by (nonlinear_arith)
            requires era == z / 146097;
    }
    let y = yoe + era * 400;
    let doy = doe - (365 * yoe + yoe / 4 - yoe / 100);
    let mp = (5 * doy + 2) / 153;
    let d = doy - (153 * mp + 2) / 5 + 1;
    let mo = if mp < 10 { mp + 3 } else { mp - 9 };
    let year = if mo <= 2 { y + 1 } else { y };
    proof {
        lemma_month_of_year(doy as int, mp as int, d as int, mo as int);
        assert(z == era * 146097 + doe && era >= 4) by (nonlinear_arith)
            requires era == z / 146097, doe == z % 146097, z >= 719468;
        lemma_month_offset(mo as int, mp as int);
        lemma_leap_era(era as int, yoe as int);
        if mo > 2 {
            lemma_leap_shift(y as int);
        } else {
            if yoe < 399 {
                lemma_leap_era(era as int, (yoe + 1) as int);
            } else {
                lemma_leap_era((era + 1) as int, 0);
            }
        }
        assert(leap_years_through(1969) == 477);
    }
    (year, mo, d)
}

/// A UTC instant broken into calendar and clock fields.
#[derive(Debug, Clone, Copy)]
pub struct CivilTime {
    pub year: u64,
    pub month: u64,
    pub day: u64,
    pub hour: u64,
    pub minute: u64,
    pub second: u64,
    pub micros: u32,
}

/// The UTC calendar and clock fields of the instant `secs` seconds and
/// `micros` microseconds after the Unix epoch.
pub open spec fn civil_time_fields(t: CivilTime, secs: int, micros: int) -> bool {
    &&& is_valid_date(t.year as int, t.month as int, t.day as int)
    &&& days_since_epoch(t.year as int, t.month as int, t.day as int) == secs / 86400
    &&& t.hour == (secs % 86400) / 3600
    &&& t.minute == (secs % 3600) / 60
    &&& t.second == secs % 60
    &&& t.micros == micros
}

/// Breaks `secs` seconds and `micros` microseconds after the Unix epoch
/// into UTC calendar and clock fields.
pub fn civil_time(secs: u64, micros: u32) -> (t: CivilTime)
    ensures
        civil_time_fields(t, secs as int, micros as int),
{
    let time_secs = secs % 86_400;
    let h = time_secs / 3_600;
    let mi = (time_secs % 3_600) / 60;
    let s = time_secs % 60;
    proof {
        assert((secs % 86400) % 3600 == secs % 3600 && (secs % 86400) % 60 == secs % 60) by (nonlinear_arith)
            requires secs >= 0;
    }
    let (y, mo, d) = days_to_ymd(secs / 86_400);
    CivilTime { year: y, month: mo, day: d, hour: h, minute: mi, second: s, micros }
}

/// `t` written as `YYYY-MM-DDThh<sep>mm<sep>ss.ffffffZ`.
pub open spec fn iso8601_chars(t: CivilTime, sep: char) -> Seq<char> {
    zero_padded(t.year as nat, 4) + seq!['-'] + zero_padded(t.month as nat, 2) + seq!['-'] + zero_padded(
        t.day as nat,
        2,
    ) + seq!['T'] + zero_padded(t.hour as nat, 2) + seq![sep] + zero_padded(t.minute as nat, 2) + seq![sep]
        + zero_padded(t.second as nat, 2) + seq!['.'] + zero_padded(t.micros as nat, 6) + seq!['Z']
}

/// Writes `t` as `YYYY-MM-DDThh<sep>mm<sep>ss.ffffffZ`.
pub fn format_civil_time(t: &CivilTime, sep: char) -> (s: String)
    ensures
        s@ == iso8601_chars(*t, sep),
{
    let mut s = String::new();
    push_zero_padded(&mut s, t.year, 4);
    push_char(&mut s, '-');
    push_zero_padded(&mut s, t.month, 2);
    push_char(&mut s, '-');
    push_zero_padded(&mut s, t.day, 2);
    push_char(&mut s, 'T');
    push_zero_padded(&mut s, t.hour, 2);
    push_char(&mut s, sep);
    push_zero_padded(&mut s, t.minute, 2);
    push_char(&mut s, sep);
    push_zero_padded(&mut s, t.second, 2);
    push_char(&mut s, '.');
    push_zero_padded(&mut s, t.micros as u64, 6);
    push_char(&mut s, 'Z');
    assert(s@ =~= iso8601_chars(*t, sep));
    s
}

/// Each field of a timestamp text stands at its fixed place and reads back
/// as the field itself: characters 0-3 are the year, 5-6 the month, 8-9
/// the day, 11-12 the hour (0-23 for a civil time, never a 12-hour clock),
/// 14-15 the minute, 17-18 the second and 20-25 the microseconds, with the
/// separators between them; so the text tells the instant it was written
/// for.
pub proof fn lemma_timestamp_fields(t: CivilTime, sep: char)
    requires
        t.year < 10000,
        t.month < 100,
        t.day < 100,
        t.hour < 100,
        t.minute < 100,
        t.second < 100,
        t.micros < 1_000_000,
    ensures
        iso8601_chars(t, sep).len() == 27,
        iso8601_chars(t, sep)[4] == '-',
        iso8601_chars(t, sep)[7] == '-',
        iso8601_chars(t, sep)[10] == 'T',
        iso8601_chars(t, sep)[13] == sep,
        iso8601_chars(t, sep)[16] == sep,
        iso8601_chars(t, sep)[19] == '.',
        iso8601_chars(t, sep)[26] == 'Z',
        all_digits(iso8601_chars(t, sep).subrange(0, 4)),
        digits_value(iso8601_chars(t, sep).subrange(0, 4)) == t.year,
        all_digits(iso8601_chars(t, sep).subrange(5, 7)),
        digits_value(iso8601_chars(t, sep).subrange(5, 7)) == t.month,
        all_digits(iso8601_chars(t, sep).subrange(8, 10)),
        digits_value(iso8601_chars(t, sep).subrange(8, 10)) == t.day,
        all_digits(iso8601_chars(t, sep).subrange(11, 13)),
        digits_value(iso8601_chars(t, sep).subrange(11, 13)) == t.hour,
        all_digits(iso8601_chars(t, sep).subrange(14, 16)),
        digits_value(iso8601_chars(t, sep).subrange(14, 16)) == t.minute,
        all_digits(iso8601_chars(t, sep).subrange(17, 19)),
        digits_value(iso8601_chars(t, sep).subrange(17, 19)) == t.second,
        all_digits(iso8601_chars(t, sep).subrange(20, 26)),
        digits_value(iso8601_chars(t, sep).subrange(20, 26)) == t.micros,
{
    reveal_with_fuel(pow10, 7);
    lemma_zero_padded_reads_back(t.year as nat, 4);
    lemma_zero_padded_reads_back(t.month as nat, 2);
    lemma_zero_padded_reads_back(t.day as nat, 2);
    lemma_zero_padded_reads_back(t.hour as nat, 2);
    lemma_zero_padded_reads_back(t.minute as nat, 2);
    lemma_zero_padded_reads_back(t.second as nat, 2);
    lemma_zero_padded_reads_back(t.micros as nat, 6);
    let s = iso8601_chars(t, sep);
    assert(s.subrange(0, 4) =~= zero_padded(t.year as nat, 4));
    assert(s.subrange(5, 7) =~= zero_padded(t.month as nat, 2));
    assert(s.subrange(8, 10) =~= zero_padded(t.day as nat, 2));
    assert(s.subrange(11, 13) =~= zero_padded(t.hour as nat, 2));
    assert(s.subrange(14, 16) =~= zero_padded(t.minute as nat, 2));
    assert(s.subrange(17, 19) =~= zero_padded(t.second as nat, 2));
    assert(s.subrange(20, 26) =~= zero_padded(t.micros as nat, 6));
}

/// The fields of a civil time are within their clock ranges: the hour is
/// 0-23, the minute and second 0-59, the month 1-12 and the day 1-31.
pub proof fn lemma_civil_time_ranges(t: CivilTime, secs: int, micros: int)
    requires
        0 <= secs,
        civil_time_fields(t, secs, micros),
    ensures
        t.hour < 24,
        t.minute < 60,
        t.second < 60,
        1 <= t.month <= 12,
        1 <= t.day <= 31,
{
    assert(t.hour < 24) by (nonlinear_arith)
        requires t.hour == (secs % 86400) / 3600, secs >= 0;
    assert(t.minute < 60) by (nonlinear_arith)
        requires t.minute == (secs % 3600) / 60, secs >= 0;
}

#[verifier::external_type_specification]
#[verifier::external_body]
pub struct ExSystemTime(std::time::SystemTime);

/// `SystemTime::now()`: the system clock's reading. Nothing is stated of
/// it: it depends on the clock.
#[verifier::external_body]
fn system_now() -> (t: std::time::SystemTime) {
    std::time::SystemTime::now()
}

/// `t.duration_since(UNIX_EPOCH)`: the time from the Unix epoch to `t`, or
/// `None` when `t` is before the epoch. Nothing is stated of the duration:
/// its content is not visible here.
#[verifier::external_body]
fn since_unix_epoch(t: &std::time::SystemTime) -> (d: Option<std::time::Duration>) {
    t.duration_since(std::time::UNIX_EPOCH).ok()
}

/// `Duration::as_secs`: the whole seconds of `d`.
#[verifier::external_body]
fn duration_secs(d: &std::time::Duration) -> (n: u64) {
    d.as_secs()
}

/// `Duration::subsec_micros`: the microseconds of `d`'s last, incomplete
/// second, which the documentation bounds below one million.
#[verifier::external_body]
fn duration_subsec_micros(d: &std::time::Duration) -> (n: u32)
    ensures
        n < 1_000_000,
{
    d.subsec_micros()
}

/// The system clock as whole seconds since the Unix epoch and the
/// microseconds of the last second; an instant before the epoch reads as
/// zero.
fn unix_time_now() -> (r: (u64, u32))
    ensures
        r.1 < 1_000_000,
{
    match since_unix_epoch(&system_now()) {
        Some(d) => (duration_secs(&d), duration_subsec_micros(&d)),
        None => (0, 0),
    }
}

/// The ISO-8601 text of some UTC instant, with `sep` between the clock
/// fields.
pub open spec fn is_timestamp_text(s: Seq<char>, sep: char) -> bool {
    exists|t: CivilTime, secs: int, micros: int|
        0 <= secs <= u64::MAX && 0 <= micros < 1_000_000 && civil_time_fields(t, secs, micros) && s
            == iso8601_chars(t, sep)
}

/// The current UTC instant as ISO-8601 with microsecond precision, e.g.
/// `2026-06-08T09:51:00.123456Z`.
pub fn now_iso8601() -> (s: String)
    ensures
        is_timestamp_text(s@, ':'),
{
    let (secs, micros) = unix_time_now();
    let t = civil_time(secs, micros);
    format_civil_time(&t, ':')
}

/// Filename-safe variant of [`now_iso8601`], e.g.
/// `2026-06-08T09-51-00.123456Z`.
pub fn now_filename_safe() -> (s: String)
    ensures
        is_timestamp_text(s@, '-'),
{
    let (secs, micros) = unix_time_now();
    let t = civil_time(secs, micros);
    format_civil_time(&t, '-')
}

/// The name of a new log file: `transport-<stamp>.ndjson`, where `stamp`
/// is the filename-safe timestamp of the moment of the call.
pub fn new_log_file_name() -> (s: String)
    ensures
        exists|stamp: Seq<char>| is_timestamp_text(stamp, '-') && s@ == "transport-"@ + stamp + ".ndjson"@,
{
    let stamp = now_filename_safe();
    let mut s = String::from_str("transport-");
    s.append(stamp.as_str());
    s.append(".ndjson");
    s
}

} // verus!
