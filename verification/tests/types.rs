//! Wire types: builders, messages, task requests and responses.

use messaggero::protocol::types::{
    AgentCard, Artifact, FileContent, FilePart, Message, Part, Role, TaskRequest, TaskResponse, TaskState,
};

#[test]
fn test_agent_card_builder_defaults() {
    let card = AgentCard::builder("my-agent").build();
    assert_eq!(card.name, "my-agent");
    assert_eq!(card.version, "1.0.0");
    assert!(!card.capabilities.streaming);
    assert!(card.skills.is_empty());
}

#[test]
fn test_agent_card_builder_full() {
    let card = AgentCard::builder("bot")
        .description("A helpful bot")
        .version("2.1.0")
        .url("http://example.com")
        .streaming(true)
        .skill("chat", "Chat", "Have a conversation")
        .build();

    assert_eq!(card.description, "A helpful bot");
    assert_eq!(card.version, "2.1.0");
    assert_eq!(card.url, "http://example.com");
    assert!(card.capabilities.streaming);
    assert_eq!(card.skills.len(), 1);
    assert_eq!(card.skills[0].id, "chat");
}

#[test]
fn test_message_user() {
    let msg = Message::user("hello");
    assert_eq!(msg.role, Role::User);
    assert_eq!(msg.text_content(), Some("hello"));
}

#[test]
fn test_message_agent() {
    let msg = Message::agent("response");
    assert_eq!(msg.role, Role::Agent);
    assert_eq!(msg.text_content(), Some("response"));
}

#[test]
fn test_message_no_text_part() {
    let msg = Message {
        role: Role::Agent,
        parts: vec![Part::File(FilePart {
            name: Some("doc.pdf".into()),
            mime_type: Some("application/pdf".into()),
            content: FileContent::Uri("https://example.com/doc.pdf".into()),
        })],
        metadata: None,
    };
    assert_eq!(msg.text_content(), None);
}

#[test]
fn test_task_request_new_generates_uuid() {
    let r1 = TaskRequest::new(Message::user("a"));
    let r2 = TaskRequest::new(Message::user("b"));
    assert_ne!(r1.id, r2.id, "each request should have a unique ID");
}

#[test]
fn test_task_request_with_id() {
    let req = TaskRequest::new(Message::user("x")).with_id("fixed-id");
    assert_eq!(req.id, "fixed-id");
}

#[test]
fn test_task_request_with_session() {
    let req = TaskRequest::new(Message::user("x")).with_session("sess-99");
    assert_eq!(req.session_id, Some("sess-99".into()));
}

#[test]
fn test_task_response_completed() {
    let resp = TaskResponse::completed("t1", Message::agent("done"));
    assert_eq!(resp.id, "t1");
    assert_eq!(resp.status.state, TaskState::Completed);
    assert!(resp.artifacts.is_empty());
}

#[test]
fn test_task_response_failed() {
    let resp = TaskResponse::failed("t2", "oops");
    assert_eq!(resp.status.state, TaskState::Failed);
    let msg = resp.status.message.unwrap();
    assert_eq!(msg.text_content(), Some("oops"));
}

#[test]
fn test_task_response_with_artifact() {
    let artifact = Artifact {
        name: Some("output.txt".into()),
        description: None,
        parts: vec![Part::text("result")],
        index: 0,
        append: None,
        last_chunk: Some(true),
    };
    let resp = TaskResponse::completed("t3", Message::agent("done")).with_artifact(artifact);
    assert_eq!(resp.artifacts.len(), 1);
    assert_eq!(resp.artifacts[0].name.as_deref(), Some("output.txt"));
}

#[test]
fn task_ids_are_uuid_v4_text() {
    let id = TaskRequest::new(Message::user("a")).id;
    assert_eq!(id.len(), 36);
    for (i, c) in id.chars().enumerate() {
        if [8, 13, 18, 23].contains(&i) {
            assert_eq!(c, '-');
        } else {
            assert!(c.is_ascii_digit() || ('a'..='f').contains(&c), "char {c:?} of {id}");
        }
    }
    assert_eq!(id.as_bytes()[14], b'4');
    assert!(matches!(id.as_bytes()[19], b'8' | b'9' | b'a' | b'b'));
    let task = messaggero::protocol::types::Task::new();
    assert_eq!(task.id.len(), 36);
    assert_eq!(task.status.state, TaskState::Submitted);
}
