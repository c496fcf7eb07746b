//! Transport audit log: calendar conversion, timestamps, entries, logger
//! settings and the writer's file rotation.

use messaggero::protocol::metadata::Metadata;
use messaggero::protocol::types::{Message, TaskResponse};
use messaggero::transport::log::{
    civil_time, days_to_ymd, format_civil_time, inbound_log_entry, llm_timing_in_range, llm_us_from_metadata,
    new_log_file_name, now_filename_safe, now_iso8601, outbound_log_entry, Direction, TransportKind,
    TransportLoggerBuilder, WriterAction, WriterEvent, WriterState,
};
use std::path::PathBuf;

#[test]
fn iso8601_unix_epoch() {
    // 1970-01-01T00:00:00.000000Z
    assert_eq!(days_to_ymd(0), (1970, 1, 1));
}

#[test]
fn iso8601_known_date() {
    // 2026-06-08 = 20612 days since epoch
    assert_eq!(days_to_ymd(20_612), (2026, 6, 8));
}

#[test]
fn iso8601_leap_day() {
    // 2000-02-29 = 11016 days since epoch
    assert_eq!(days_to_ymd(11_016), (2000, 2, 29));
}

#[test]
fn days_to_ymd_year_boundaries() {
    assert_eq!(days_to_ymd(364), (1970, 12, 31));
    assert_eq!(days_to_ymd(365), (1971, 1, 1));
    assert_eq!(days_to_ymd(11_015), (2000, 2, 28));
    assert_eq!(days_to_ymd(11_017), (2000, 3, 1));
    // 2100 is not a leap year: 2100-02-28 is followed by 2100-03-01.
    assert_eq!(days_to_ymd(47_540), (2100, 2, 28));
    assert_eq!(days_to_ymd(47_541), (2100, 3, 1));
}

#[test]
fn log_entry_serializes_without_optional_fields() {
    let entry = outbound_log_entry(
        "2026-06-08T09:51:00.000000Z".into(),
        TransportKind::Fast,
        "abc".into(),
        None,
        100,
        Ok(Some(&TaskResponse::completed("abc", Message::agent("x")))),
    );
    assert!(entry.error.is_none());
    assert!(entry.payload_bytes.is_none());
    assert_eq!(entry.transport, TransportKind::Fast);
    assert_eq!(entry.direction, Direction::Outbound);
    assert_eq!(entry.status, "ok");
    assert_eq!(entry.llm_us, None);
    assert_eq!(entry.transport_us, None);
}

#[test]
fn civil_time_formats_iso8601() {
    // 2026-06-08T09:51:00.123456Z
    let secs = 20_612u64 * 86_400 + 9 * 3_600 + 51 * 60;
    let t = civil_time(secs, 123_456);
    assert_eq!(format_civil_time(&t, ':'), "2026-06-08T09:51:00.123456Z");
    assert_eq!(format_civil_time(&t, '-'), "2026-06-08T09-51-00.123456Z");
    let epoch = civil_time(0, 7);
    assert_eq!(format_civil_time(&epoch, ':'), "1970-01-01T00:00:00.000007Z");
}

#[test]
fn now_timestamps_have_iso8601_shape() {
    let s = now_iso8601();
    assert_eq!(s.len(), 27);
    assert!(s.ends_with('Z'));
    assert_eq!(&s[4..5], "-");
    assert_eq!(&s[10..11], "T");
    assert_eq!(&s[13..14], ":");
    let f = now_filename_safe();
    assert_eq!(&f[13..14], "-");
    let name = new_log_file_name();
    assert!(name.starts_with("transport-"));
    assert!(name.ends_with(".ndjson"));
}

fn meta(pairs: &[(&str, &str)]) -> Metadata {
    let mut m = Metadata::new();
    for (k, v) in pairs {
        m.insert(k.to_string(), v.to_string());
    }
    m
}

#[test]
fn llm_timing_prefers_microseconds() {
    assert_eq!(llm_us_from_metadata(&meta(&[("llm_us", "1500"), ("llm_ms", "9")])), Some(1500));
    assert_eq!(llm_us_from_metadata(&meta(&[("llm_ms", "7")])), Some(7000));
    assert_eq!(llm_us_from_metadata(&meta(&[("llm_us", "x"), ("llm_ms", "2")])), Some(2000));
    assert_eq!(llm_us_from_metadata(&meta(&[("other", "5")])), None);
    assert!(llm_timing_in_range(&meta(&[("llm_ms", "18446744073709551")])));
    assert!(!llm_timing_in_range(&meta(&[("llm_ms", "18446744073709552")])));
}

#[test]
fn outbound_entry_derives_transport_overhead() {
    let mut resp = TaskResponse::completed("t", Message::agent("x"));
    resp.metadata = Some(meta(&[("llm_us", "400")]));
    let e = outbound_log_entry("ts".into(), TransportKind::A2a, "t".into(), Some("s".into()), 1000, Ok(Some(&resp)));
    assert_eq!(e.llm_us, Some(400));
    assert_eq!(e.transport_us, Some(600));
    assert_eq!(e.session_id.as_deref(), Some("s"));

    resp.metadata = Some(meta(&[("llm_us", "5000")]));
    let e = outbound_log_entry("ts".into(), TransportKind::A2a, "t".into(), None, 1000, Ok(Some(&resp)));
    assert_eq!(e.transport_us, Some(0));

    let e = outbound_log_entry("ts".into(), TransportKind::Fast, "t".into(), None, 10, Err("boom".into()));
    assert_eq!(e.status, "error");
    assert_eq!(e.error.as_deref(), Some("boom"));
    assert_eq!(e.llm_us, None);

    // A successful exchange whose reply is not a response logs no timing.
    let e = outbound_log_entry("ts".into(), TransportKind::Fast, "t".into(), None, 10, Ok(None));
    assert_eq!(e.status, "ok");
    assert_eq!(e.llm_us, None);
    assert_eq!(e.transport_us, None);
}

#[test]
fn inbound_entry_records_status() {
    let e = inbound_log_entry("ts".into(), TransportKind::Fast, "id".into(), None, 5, None);
    assert_eq!(e.status, "ok");
    assert_eq!(e.direction, Direction::Inbound);
    let e = inbound_log_entry("ts".into(), TransportKind::A2a, "id".into(), None, 5, Some("bad".into()));
    assert_eq!(e.status, "error");
    assert_eq!(e.error.as_deref(), Some("bad"));
}

#[test]
fn logger_builder_limits() {
    let b = TransportLoggerBuilder::new().max_entries(0).channel_capacity(0);
    assert!(b.writer_config().is_none());
    let c = TransportLoggerBuilder::new()
        .log_dir(PathBuf::from("/tmp/logs"))
        .max_entries(5)
        .channel_capacity(256)
        .writer_config()
        .unwrap();
    assert_eq!(c.log_dir, PathBuf::from("/tmp/logs"));
    assert_eq!(c.max_entries, 5);
    assert_eq!(c.channel_capacity, 256);
    let d = TransportLoggerBuilder::default().log_dir(PathBuf::from("/x")).max_entries(0).writer_config().unwrap();
    assert_eq!(d.max_entries, 1);
    assert_eq!(d.channel_capacity, 4096);
}

#[test]
fn writer_rotates_after_max_entries() {
    let mut s = WriterState::new(2);
    assert_eq!(s.step(WriterEvent::EntryReady), WriterAction::OpenFile);
    assert_eq!(s.step(WriterEvent::FileOpened), WriterAction::WriteLine);
    assert_eq!(s.step(WriterEvent::LineWritten), WriterAction::Await);
    assert_eq!(s.step(WriterEvent::EntryReady), WriterAction::WriteLine);
    assert_eq!(s.step(WriterEvent::LineWritten), WriterAction::Await);
    assert_eq!(s.lines_in_file, 2);
    assert_eq!(s.step(WriterEvent::EntryReady), WriterAction::OpenFile);
    assert_eq!(s.step(WriterEvent::OpenFailed), WriterAction::DropEntry);
    assert_eq!(s.step(WriterEvent::EntryReady), WriterAction::OpenFile);
    assert_eq!(s.step(WriterEvent::FileOpened), WriterAction::WriteLine);
    assert_eq!(s.lines_in_file, 0);
    assert_eq!(s.step(WriterEvent::WriteFailed), WriterAction::Await);
    assert!(!s.file_open);
    assert_eq!(s.step(WriterEvent::EntryReady), WriterAction::OpenFile);
}

#[test]
fn writer_fills_each_file_before_the_next() {
    let k = 3;
    let mut s = WriterState::new(k);
    let mut file: i64 = -1;
    for i in 0..10usize {
        if s.step(WriterEvent::EntryReady) == WriterAction::OpenFile {
            file += 1;
            assert_eq!(s.step(WriterEvent::FileOpened), WriterAction::WriteLine);
        }
        assert_eq!(s.step(WriterEvent::LineWritten), WriterAction::Await);
        assert_eq!(file, (i / k) as i64);
    }
    assert_eq!(s.lines_in_file, 1);
}
