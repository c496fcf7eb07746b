//! The three agents of a question-answering pipeline backed by a language
//! model: a researcher answers a question, a critic reviews and improves
//! the answer, a summarizer condenses the result. What each agent
//! advertises, the prompt it sends to its model, and the reply it builds.

use vstd::prelude::*;

use crate::llm::stream::GenerateTiming;
use crate::llm::timing::{timing_metadata, timing_metadata_of};
use crate::protocol::error::AgentError;
use crate::protocol::types::{
    first_text, is_plain_skill, is_text_message, no_capabilities, AgentCard, Message, Role, TaskRequest,
    TaskResponse, TaskState,
};
use crate::text::{find_text, occurs_at, trim, trimmed};

verus! {

/// A role in the pipeline.
#[derive(Debug, Clone, Copy, PartialEq, Eq, Structural)]
pub enum PipelineRole {
    /// Answers questions.
    Researcher,
    /// Reviews and improves a text.
    Critic,
    /// Summarizes a text in bullet points.
    Summarizer,
}

/// System prompt of the researcher.
pub const RESEARCHER_SYSTEM: &'static str = "You are a knowledgeable research assistant. When given a question or topic, provide a clear, factual, and well-structured answer. Be concise but thorough. Answer in the same language as the question.";

/// System prompt of the critic.
pub const CRITIC_SYSTEM: &'static str = "You are a constructive critic and editor. You receive a piece of text and your job is to:\n1. Identify any inaccuracies or gaps\n2. Improve clarity and conciseness\n3. Provide the improved version of the text\n\nFormat your response as:\nFEEDBACK: <your feedback in 1-2 sentences>\nIMPROVED: <the improved text>\n\nBe direct and helpful. Respond in the same language as the input.";

/// System prompt of the summarizer.
pub const SUMMARIZER_SYSTEM: &'static str = "You are a professional summarizer. Take the given text and produce a bullet-point summary with the key points. Use at most 5 bullet points. Be concise. Respond in the same language as the input.";

/// Lead of the critic's prompt, followed by the text to review.
pub const CRITIC_LEAD: &'static str = "Please review and improve this text:\n\n";

/// Lead of the summarizer's prompt, followed by the text to summarize.
pub const SUMMARIZER_LEAD: &'static str = "Summarize this text in bullet points:\n\n";

/// Marker of the improved text in the critic's answer.
pub const IMPROVED_MARKER: &'static str = "IMPROVED:";

/// What the card of `role` advertises: name, description, URL, and one
/// skill (id, name, description).
pub open spec fn card_fields(role: PipelineRole) -> (Seq<char>, Seq<char>, Seq<char>, Seq<char>, Seq<char>, Seq<char>) {
    match role {
        PipelineRole::Researcher => (
            "researcher"@,
            "Answers questions using LLM knowledge"@,
            "http://localhost:3001"@,
            "research"@,
            "Research"@,
            "Answers factual questions"@,
        ),
        PipelineRole::Critic => (
            "critic"@,
            "Reviews and improves text responses using LLM"@,
            "http://localhost:3002"@,
            "critique"@,
            "Critique"@,
            "Reviews and improves text quality"@,
        ),
        PipelineRole::Summarizer => (
            "summarizer"@,
            "Summarizes text into bullet points"@,
            "http://localhost:3003"@,
            "summarize"@,
            "Summarize"@,
            "Creates bullet-point summaries"@,
        ),
    }
}

/// `card` is the card of `role`: its fields, version `1.0.0`, no
/// capabilities, the one skill, and nothing else.
pub open spec fn is_role_card(card: AgentCard, role: PipelineRole) -> bool {
    let f = card_fields(role);
    &&& card.name@ == f.0
    &&& card.description@ == f.1
    &&& card.url@ == f.2
    &&& card.version@ == "1.0.0"@
    &&& card.capabilities == no_capabilities()
    &&& card.skills@.len() == 1
    &&& is_plain_skill(card.skills@[0], f.3, f.4, f.5)
    &&& card.authentication is None
    &&& card.default_input_modes is None
    &&& card.default_output_modes is None
}

fn build_card(name: &str, description: &str, url: &str, skill_id: &str, skill_name: &str, skill_description: &str) -> (card: AgentCard)
    ensures
        card.name@ == name@,
        card.description@ == description@,
        card.url@ == url@,
        card.version@ == "1.0.0"@,
        card.capabilities == no_capabilities(),
        card.skills@.len() == 1,
        is_plain_skill(card.skills@[0], skill_id@, skill_name@, skill_description@),
        card.authentication is None,
        card.default_input_modes is None,
        card.default_output_modes is None,
{
    let card = AgentCard::builder(name).description(description).url(url).skill(skill_id, skill_name, skill_description).build();
    card
}

impl PipelineRole {
    /// The card this agent advertises.
    pub fn card(&self) -> (card: AgentCard)
        ensures
            is_role_card(card, *self),
    {
        match self {
            PipelineRole::Researcher => build_card(
                "researcher",
                "Answers questions using LLM knowledge",
                "http://localhost:3001",
                "research",
                "Research",
                "Answers factual questions",
            ),
            PipelineRole::Critic => build_card(
                "critic",
                "Reviews and improves text responses using LLM",
                "http://localhost:3002",
                "critique",
                "Critique",
                "Reviews and improves text quality",
            ),
            PipelineRole::Summarizer => build_card(
                "summarizer",
                "Summarizes text into bullet points",
                "http://localhost:3003",
                "summarize",
                "Summarize",
                "Creates bullet-point summaries",
            ),
        }
    }

    /// The system prompt this agent sends to its model.
    pub fn system_prompt(&self) -> (s: &'static str)
        ensures
            *self == PipelineRole::Researcher ==> s@ == RESEARCHER_SYSTEM@,
            *self == PipelineRole::Critic ==> s@ == CRITIC_SYSTEM@,
            *self == PipelineRole::Summarizer ==> s@ == SUMMARIZER_SYSTEM@,
    {
        match self {
            PipelineRole::Researcher => RESEARCHER_SYSTEM,
            PipelineRole::Critic => CRITIC_SYSTEM,
            PipelineRole::Summarizer => SUMMARIZER_SYSTEM,
        }
    }

    /// The prompt this agent sends for the task text `text`: the question
    /// itself for the researcher, the text behind a lead for the others.
    pub fn prompt(&self, text: &str) -> (p: String)
        ensures
            *self == PipelineRole::Researcher ==> p@ == text@,
            *self == PipelineRole::Critic ==> p@ == CRITIC_LEAD@ + text@,
            *self == PipelineRole::Summarizer ==> p@ == SUMMARIZER_LEAD@ + text@,
    {
        let mut p = match self {
            PipelineRole::Researcher => String::new(),
            PipelineRole::Critic => String::from_str(CRITIC_LEAD),
            PipelineRole::Summarizer => String::from_str(SUMMARIZER_LEAD),
        };
        let ghost lead = p@;
        p.append(text);
        proof {
            if *self == PipelineRole::Researcher {
                assert(lead.len() == 0);
                assert(p@ =~= text@);
            }
        }
        p
    }
}

/// The text an agent works on: the first text part of the request's
/// message, or an `InvalidRequest("empty message")` error.
pub fn task_text(req: &TaskRequest) -> (r: Result<String, AgentError>)
    ensures
        first_text(req.message.parts@) matches Some(t) ==> (r matches Ok(s) && s@ == t),
        first_text(req.message.parts@) is None ==> (r matches Err(AgentError::InvalidRequest(m)) && m@
            == "empty message"@),
{
    match req.message.text_content() {
        Some(t) => Ok(String::from_str(t)),
        None => Err(AgentError::InvalidRequest(String::from_str("empty message"))),
    }
}

/// The reply to task `id`: completed with the model's answer `text`, and
/// the generation's timing in its metadata.
pub fn timed_reply(id: &str, text: &str, timing: &GenerateTiming) -> (r: TaskResponse)
    ensures
        r.id@ == id@,
        r.session_id is None,
        r.status.state == TaskState::Completed,
        r.status.message matches Some(m) && is_text_message(m, Role::Agent, text@),
        r.status.timestamp is None,
        r.artifacts@.len() == 0,
        r.metadata matches Some(m) && m@ == timing_metadata_of(*timing),
{
    let mut r = TaskResponse::completed(id, Message::agent(text));
    r.metadata = Some(timing_metadata(timing));
    r
}

/// The part of the critic's answer to pass on: what follows the first
/// [`IMPROVED_MARKER`], trimmed, or the whole answer without the marker.
pub open spec fn improved_section_of(critique: Seq<char>) -> Seq<char> {
    if exists|i: int| occurs_at(critique, IMPROVED_MARKER@, i) {
        let i = choose|i: int|
            occurs_at(critique, IMPROVED_MARKER@, i) && forall|j: int|
                0 <= j < i ==> !#[trigger] occurs_at(critique, IMPROVED_MARKER@, j);
        trimmed(critique.skip(i + IMPROVED_MARKER@.len()))
    } else {
        critique
    }
}

/// The part of the critic's answer to pass on to the summarizer.
pub fn improved_section(critique: &str) -> (r: String)
    ensures
        r@ == improved_section_of(critique@),
{
    match find_text(critique, IMPROVED_MARKER) {
        Some(i) => {
            let n = critique.unicode_len();
            let m = IMPROVED_MARKER.unicode_len();
            let tail = critique.substring_char(i + m, n);
            proof {
                let marker = IMPROVED_MARKER@;
                assert(occurs_at(critique@, marker, i as int) && forall|j: int|
                    0 <= j < i ==> !#[trigger] occurs_at(critique@, marker, j));
                let c = choose|k: int|
                    occurs_at(critique@, marker, k) && forall|j: int|
                        0 <= j < k ==> !#[trigger] occurs_at(critique@, marker, j);
                assert(occurs_at(critique@, marker, c));
                if c < i {
                    assert(!occurs_at(critique@, marker, c));
                } else if c > i {
                    assert(!occurs_at(critique@, marker, i as int));
                }
                assert(c == i);
                assert(tail@ =~= critique@.skip(i + m));
            }
            trim(tail)
        },
        None => String::from_str(critique),
    }
}

/// What is passed on from the critic's answer: when the marker first occurs
/// at `i`, everything after it to the end of the answer, all its lines,
/// trimmed only at its two ends; without the marker, the answer unchanged.
pub proof fn lemma_improved_section_is_rest(critique: Seq<char>, i: int)
    ensures
        (occurs_at(critique, IMPROVED_MARKER@, i) && forall|j: int|
            0 <= j < i ==> !#[trigger] occurs_at(critique, IMPROVED_MARKER@, j)) ==> improved_section_of(critique)
            == trimmed(critique.skip(i + IMPROVED_MARKER@.len())),
        (forall|j: int| !#[trigger] occurs_at(critique, IMPROVED_MARKER@, j)) ==> improved_section_of(critique)
            == critique,
{
    let marker = IMPROVED_MARKER@;
    if occurs_at(critique, marker, i) && forall|j: int| 0 <= j < i ==> !#[trigger] occurs_at(critique, marker, j) {
        let c = choose|k: int|
            occurs_at(critique, marker, k) && forall|j: int| 0 <= j < k ==> !#[trigger] occurs_at(critique, marker, j);
        assert(occurs_at(critique, marker, c));
        if c < i {
            assert(!occurs_at(critique, marker, c));
        } else if c > i {
            assert(!occurs_at(critique, marker, i));
        }
    }
}

} // verus!
