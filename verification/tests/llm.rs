//! Language-model agents: stream reading, timing metadata, prompts and
//! replies; audit-log statistics; trimming and searching text.

use messaggero::audit::{AuditLine, AuditStats};
use messaggero::llm::agents::{
    improved_section, task_text, timed_reply, PipelineRole, CRITIC_LEAD, CRITIC_SYSTEM, RESEARCHER_SYSTEM,
    SUMMARIZER_SYSTEM,
};
use messaggero::llm::stream::{
    final_answer, generate_timing, generate_url, system_with_no_think, take_line, ChunkVerdict, GenerateTiming,
    StreamChunk, ThinkFilter,
};
use messaggero::llm::timing::{extract_timing, metadata_duration_us, timing_metadata};
use messaggero::protocol::error::AgentError;
use messaggero::protocol::metadata::Metadata;
use messaggero::protocol::types::{FileContent, FilePart, Message, Part, Role, TaskRequest, TaskResponse, TaskState};
use messaggero::text::{find_text, trim};

fn chunk(response: &str, done: bool, thinking: &str) -> StreamChunk {
    StreamChunk { response: response.into(), done, thinking: thinking.into() }
}

#[test]
fn lines_are_split_at_the_first_break_and_trimmed() {
    assert_eq!(take_line("  {\"a\":1} \r\nrest\nmore"), Some(("{\"a\":1}".to_string(), "rest\nmore".to_string())));
    assert_eq!(take_line("\n"), Some((String::new(), String::new())));
    assert_eq!(take_line("no break yet"), None);
    assert_eq!(take_line(""), None);
}

#[test]
fn think_blocks_are_filtered() {
    let mut f = ThinkFilter::new();
    assert_eq!(f.step(&chunk("", false, "pondering")), ChunkVerdict::Skip);
    assert_eq!(f.step(&chunk("<think>", false, "")), ChunkVerdict::Skip);
    assert!(f.inside_think_block);
    assert_eq!(f.step(&chunk("secret", false, "")), ChunkVerdict::Skip);
    assert_eq!(f.step(&chunk("</think>", false, "")), ChunkVerdict::Skip);
    assert!(!f.inside_think_block);
    assert_eq!(f.step(&chunk("", false, "")), ChunkVerdict::Emit { first: false, stop: false });
    assert_eq!(f.step(&chunk("Hello", false, "")), ChunkVerdict::Emit { first: true, stop: false });
    assert_eq!(f.step(&chunk(" world", true, "")), ChunkVerdict::Emit { first: false, stop: true });
    assert!(f.first_token_seen);
}

#[test]
fn dropped_last_chunk_stops_reading() {
    let mut f = ThinkFilter::new();
    assert_eq!(f.step(&chunk("a<think>b", false, "")), ChunkVerdict::Skip);
    assert_eq!(f.step(&chunk("x", true, "")), ChunkVerdict::Stop);
    assert_eq!(f.step(&chunk("y</think>", true, "")), ChunkVerdict::Stop);
    // A reasoning token sent apart is dropped even when it is the last.
    assert_eq!(f.step(&chunk("", true, "more")), ChunkVerdict::Skip);
    // Opening and closing in one token leaves no block open.
    let mut g = ThinkFilter::new();
    assert_eq!(g.step(&chunk("<think>x</think>", false, "")), ChunkVerdict::Skip);
    assert!(!g.inside_think_block);
}

#[test]
fn generation_request_and_result() {
    assert_eq!(system_with_no_think(Some("Be brief.")), Some("/no_think\n\nBe brief.".to_string()));
    assert_eq!(system_with_no_think(None), None);
    assert_eq!(generate_url("http://localhost:11434"), "http://localhost:11434/api/generate");
    assert_eq!(final_answer("\n  answer text \n"), "answer text");
    let t = generate_timing(None, 900);
    assert_eq!(t, GenerateTiming { time_to_first_token_us: 900, llm_total_us: 900 });
    assert_eq!(generate_timing(Some(120), 900).time_to_first_token_us, 120);
}

fn meta(pairs: &[(&str, &str)]) -> Metadata {
    let mut m = Metadata::new();
    for (k, v) in pairs {
        m.insert(k.to_string(), v.to_string());
    }
    m
}

#[test]
fn timing_metadata_roundtrip() {
    let m = timing_metadata(&GenerateTiming { time_to_first_token_us: 2_500, llm_total_us: 1_234_567 });
    assert_eq!(m.get("llm_us").unwrap(), "1234567");
    assert_eq!(m.get("llm_ms").unwrap(), "1234");
    assert_eq!(m.get("ttft_us").unwrap(), "2500");
    assert_eq!(m.get("ttft_ms").unwrap(), "2");
    assert_eq!(m.len(), 4);

    let mut resp = TaskResponse::completed("t", Message::agent("x"));
    assert_eq!(extract_timing(&resp), (0, 0));
    resp.metadata = Some(m);
    assert_eq!(extract_timing(&resp), (1_234_567, 2_500));
}

#[test]
fn metadata_duration_prefers_microseconds() {
    assert_eq!(metadata_duration_us(&meta(&[("a_us", "15"), ("a_ms", "3")]), "a_us", "a_ms"), 15);
    assert_eq!(metadata_duration_us(&meta(&[("a_us", "bad"), ("a_ms", "3")]), "a_us", "a_ms"), 3_000);
    assert_eq!(metadata_duration_us(&meta(&[("x", "1")]), "a_us", "a_ms"), 0);
    assert_eq!(
        metadata_duration_us(&meta(&[("a_ms", "18446744073709551615")]), "a_us", "a_ms"),
        18_446_744_073_709_551_615_000
    );
}

#[test]
fn pipeline_cards_and_prompts() {
    let c = PipelineRole::Critic.card();
    assert_eq!(c.name, "critic");
    assert_eq!(c.url, "http://localhost:3002");
    assert_eq!(c.version, "1.0.0");
    assert_eq!(c.skills.len(), 1);
    assert_eq!(c.skills[0].id, "critique");
    assert_eq!(c.skills[0].description.as_deref(), Some("Reviews and improves text quality"));
    assert_eq!(PipelineRole::Researcher.card().description, "Answers questions using LLM knowledge");
    assert_eq!(PipelineRole::Summarizer.card().skills[0].name, "Summarize");

    assert_eq!(PipelineRole::Researcher.prompt("Why?"), "Why?");
    assert_eq!(PipelineRole::Critic.prompt("draft"), format!("{CRITIC_LEAD}draft"));
    assert_eq!(PipelineRole::Summarizer.prompt("t"), "Summarize this text in bullet points:\n\nt");
    assert_eq!(PipelineRole::Researcher.system_prompt(), RESEARCHER_SYSTEM);
    assert_eq!(PipelineRole::Critic.system_prompt(), CRITIC_SYSTEM);
    assert_eq!(PipelineRole::Summarizer.system_prompt(), SUMMARIZER_SYSTEM);
    assert!(CRITIC_SYSTEM.contains("IMPROVED: <the improved text>"));
}

#[test]
fn task_text_and_reply() {
    let req = TaskRequest::new(Message::user("question"));
    assert_eq!(task_text(&req).unwrap(), "question");
    let file_only = TaskRequest::new(Message {
        role: Role::User,
        parts: vec![Part::File(FilePart {
            name: None,
            mime_type: None,
            content: FileContent::Uri("https://x".into()),
        })],
        metadata: None,
    });
    match task_text(&file_only) {
        Err(AgentError::InvalidRequest(m)) => assert_eq!(m, "empty message"),
        other => panic!("unexpected {other:?}"),
    }
    let r = timed_reply("id-1", "answer", &GenerateTiming { time_to_first_token_us: 10, llm_total_us: 20 });
    assert_eq!(r.id, "id-1");
    assert_eq!(r.status.state, TaskState::Completed);
    assert_eq!(r.status.message.as_ref().unwrap().text_content(), Some("answer"));
    assert_eq!(r.metadata.as_ref().unwrap().get("ttft_us").unwrap(), "10");
}

#[test]
fn improved_section_extraction() {
    assert_eq!(improved_section("FEEDBACK: fine\nIMPROVED:  Better text. \n"), "Better text.");
    assert_eq!(improved_section("IMPROVED: a IMPROVED: b"), "a IMPROVED: b");
    assert_eq!(improved_section("no marker here"), "no marker here");
}

fn line(session: Option<&str>, status: &str, duration: Option<u64>, transport: Option<u64>) -> AuditLine {
    AuditLine {
        session_id: session.map(|s| s.to_string()),
        status: Some(status.to_string()),
        duration_us: duration,
        transport_us: transport,
    }
}

#[test]
fn audit_stats_without_filter() {
    let mut s = AuditStats::default();
    for l in [
        line(Some("a"), "ok", Some(100), Some(40)),
        line(None, "error", Some(50), None),
        line(Some("b"), "ok", None, Some(5)),
    ] {
        assert!(s.can_record(&l, None));
        s.record(&l, None);
    }
    assert_eq!(s.entries, 3);
    assert_eq!(s.ok, 2);
    assert_eq!(s.errors, 1);
    assert_eq!(s.total_duration_us, 150);
    assert_eq!(s.total_transport_us, 45);
    assert_eq!(s.transport_samples, 2);
    assert_eq!(s.ignored_without_session, 0);
}

#[test]
fn audit_stats_with_session_filter() {
    let sessions = vec!["conv-1".to_string()];
    let mut s = AuditStats::default();
    s.record(&line(Some("conv-1"), "ok", Some(10), None), Some(&sessions));
    s.record(&line(Some("conv-2"), "ok", Some(99), None), Some(&sessions));
    s.record(&line(None, "ok", Some(99), None), Some(&sessions));
    let no_status = AuditLine { session_id: Some("conv-1".into()), status: None, duration_us: None, transport_us: None };
    s.record(&no_status, Some(&sessions));
    assert_eq!(s.entries, 2);
    assert_eq!(s.ok, 1);
    assert_eq!(s.errors, 1);
    assert_eq!(s.total_duration_us, 10);
    assert_eq!(s.ignored_without_session, 1);

    let full = AuditStats { total_duration_us: u64::MAX, ..AuditStats::default() };
    assert!(!full.can_record(&line(Some("conv-1"), "ok", Some(1), None), Some(&sessions)));
    assert!(full.can_record(&line(Some("conv-2"), "ok", Some(1), None), Some(&sessions)));
}

#[test]
fn trim_matches_std() {
    let samples = ["", "   ", " a ", "\t\nab c\r\n", "\u{3000}x\u{85}", "\u{200b}y\u{200b}", "é ", " \u{a0}z\u{2029}"];
    for s in samples {
        assert_eq!(trim(s), s.trim(), "input {s:?}");
    }
    for c in (0u32..0x11_0000).filter_map(char::from_u32) {
        let s = c.to_string();
        assert_eq!(trim(&s).is_empty(), c.is_whitespace(), "char {c:?}");
    }
}

#[test]
fn find_counts_characters() {
    assert_eq!(find_text("abcabc", "ca"), Some(2));
    assert_eq!(find_text("héllo wörld", "wö"), Some(6));
    assert_eq!(find_text("abc", ""), Some(0));
    assert_eq!(find_text("ab", "abc"), None);
    assert_eq!(find_text("aaa", "b"), None);
}

#[test]
fn ndjson_log_text_is_read_line_by_line() {
    let content = [
        "{\"session_id\":\"c1\",\"status\":\"ok\",\"duration_us\":10,\"transport_us\":4}\r\n",
        "\n",
        "not json\n",
        "{\"session_id\":\"c2\",\"status\":\"error\",\"duration_us\":7}\n",
        "{\"status\":\"ok\",\"duration_us\":\"x\"}",
    ]
    .concat();
    let content = content.as_str();
    let mut all = AuditStats::default();
    assert!(all.can_record_ndjson(content, None));
    all.record_ndjson(content, None);
    assert_eq!((all.entries, all.ok, all.errors), (3, 2, 1));
    assert_eq!(all.total_duration_us, 17);
    assert_eq!((all.total_transport_us, all.transport_samples), (4, 1));

    let sessions = vec!["c1".to_string()];
    let mut one = AuditStats::default();
    one.record_ndjson(content, Some(&sessions));
    assert_eq!((one.entries, one.ok, one.ignored_without_session), (1, 1, 1));

    let full = AuditStats { total_duration_us: u64::MAX - 5, ..AuditStats::default() };
    assert!(!full.can_record_ndjson(content, None));
    assert!(full.can_record_ndjson("", None));
}
