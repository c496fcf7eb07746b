//! Wire types of the protocol (A2A v1.0 compatible): agent cards, tasks,
//! messages, parts, artifacts, task requests and responses.

use vstd::prelude::*;

use crate::protocol::metadata::Metadata;

verus! {

// ---------------------------------------------------------------------------
// Agent card
// ---------------------------------------------------------------------------

/// Capability advertisement for an agent, following the A2A v1.0 schema.
#[derive(Debug, Clone)]
pub struct AgentCard {
    /// Unique human-readable name of this agent.
    pub name: String,
    /// Short description of what the agent does.
    pub description: String,
    /// Base URL where the agent's A2A HTTP endpoint is reachable.
    pub url: String,
    /// Semantic version string of the agent implementation.
    pub version: String,
    /// Optional feature flags.
    pub capabilities: AgentCapabilities,
    /// Skills this agent exposes.
    pub skills: Vec<AgentSkill>,
    /// Authentication requirements, if any.
    pub authentication: Option<AuthenticationInfo>,
    /// MIME types accepted as input.
    pub default_input_modes: Option<Vec<String>>,
    /// MIME types produced as output.
    pub default_output_modes: Option<Vec<String>>,
}

/// Optional capability flags advertised in an [`AgentCard`].
#[derive(Debug, Clone)]
pub struct AgentCapabilities {
    /// Whether the agent supports streaming task responses.
    pub streaming: bool,
    /// Whether the agent can send push notifications for async tasks.
    pub push_notifications: bool,
    /// Whether the agent retains full state-transition history.
    pub state_transition_history: bool,
}

/// Capabilities with every flag off.
pub open spec fn no_capabilities() -> AgentCapabilities {
    AgentCapabilities { streaming: false, push_notifications: false, state_transition_history: false }
}

impl Default for AgentCapabilities {
    fn default() -> (c: Self)
        ensures
            c == no_capabilities(),
    {
        AgentCapabilities { streaming: false, push_notifications: false, state_transition_history: false }
    }
}

/// A single named skill advertised by an agent.
#[derive(Debug, Clone)]
pub struct AgentSkill {
    /// Identifier of this skill within the agent.
    pub id: String,
    /// Human-readable display name.
    pub name: String,
    /// Optional explanation of what the skill does.
    pub description: Option<String>,
    /// Searchable tags.
    pub tags: Vec<String>,
    /// Example prompts illustrating how to invoke the skill.
    pub examples: Option<Vec<String>>,
    /// MIME types accepted by this skill.
    pub input_modes: Option<Vec<String>>,
    /// MIME types produced by this skill.
    pub output_modes: Option<Vec<String>>,
}

/// Authentication descriptor attached to an [`AgentCard`].
#[derive(Debug, Clone)]
pub struct AuthenticationInfo {
    /// Authentication scheme, e.g. `"Bearer"`.
    pub auth_type: String,
    /// Opaque credentials or configuration hints.
    pub credentials: Option<String>,
}

/// What an [`AgentCardBuilder`] holds so far.
pub struct AgentCardBuilderView {
    pub name: Seq<char>,
    pub description: Seq<char>,
    pub url: Seq<char>,
    pub version: Seq<char>,
    pub capabilities: AgentCapabilities,
    pub skills: Seq<AgentSkill>,
}

/// Fluent builder for [`AgentCard`]; obtain one via [`AgentCard::builder`].
pub struct AgentCardBuilder {
    name: String,
    description: String,
    url: String,
    version: String,
    capabilities: AgentCapabilities,
    skills: Vec<AgentSkill>,
}

impl View for AgentCardBuilder {
    type V = AgentCardBuilderView;

    closed spec fn view(&self) -> AgentCardBuilderView {
        AgentCardBuilderView {
            name: self.name@,
            description: self.description@,
            url: self.url@,
            version: self.version@,
            capabilities: self.capabilities,
            skills: self.skills@,
        }
    }
}

/// `skill` describes the skill `id`/`name` with the given description and
/// nothing else.
pub open spec fn is_plain_skill(skill: AgentSkill, id: Seq<char>, name: Seq<char>, description: Seq<char>) -> bool {
    &&& skill.id@ == id
    &&& skill.name@ == name
    &&& skill.description matches Some(d) && d@ == description
    &&& skill.tags@.len() == 0
    &&& skill.examples is None
    &&& skill.input_modes is None
    &&& skill.output_modes is None
}

impl AgentCardBuilder {
    /// A builder for an agent named `name`, version `1.0.0`, empty
    /// description and URL, default capabilities and no skills.
    pub fn new(name: &str) -> (b: Self)
        ensures
            b@.name == name@,
            b@.description.len() == 0,
            b@.url.len() == 0,
            b@.version == "1.0.0"@,
            b@.capabilities == no_capabilities(),
            b@.skills.len() == 0,
    {
        let b = AgentCardBuilder {
            name: String::from_str(name),
            description: String::new(),
            url: String::new(),
            version: String::from_str("1.0.0"),
            capabilities: AgentCapabilities::default(),
            skills: Vec::new(),
        };
        b
    }

    /// Sets the description.
    pub fn description(self, desc: &str) -> (b: Self)
        ensures
            b@ == (AgentCardBuilderView { description: desc@, ..self@ }),
    {
        AgentCardBuilder { description: String::from_str(desc), ..self }
    }

    /// Sets the base URL.
    pub fn url(self, url: &str) -> (b: Self)
        ensures
            b@ == (AgentCardBuilderView { url: url@, ..self@ }),
    {
        AgentCardBuilder { url: String::from_str(url), ..self }
    }

    /// Sets the version string.
    pub fn version(self, ver: &str) -> (b: Self)
        ensures
            b@ == (AgentCardBuilderView { version: ver@, ..self@ }),
    {
        AgentCardBuilder { version: String::from_str(ver), ..self }
    }

    /// Sets whether the agent supports streaming.
    pub fn streaming(self, enabled: bool) -> (b: Self)
        ensures
            b@ == (AgentCardBuilderView {
                capabilities: AgentCapabilities { streaming: enabled, ..self@.capabilities },
                ..self@
            }),
    {
        let mut b = self;
        b.capabilities.streaming = enabled;
        b
    }

    /// Adds a skill with the given id, name and description.
    pub fn skill(self, id: &str, name: &str, description: &str) -> (b: Self)
        ensures
            b@.skills.len() == self@.skills.len() + 1,
            b@.skills.take(self@.skills.len() as int) == self@.skills,
            is_plain_skill(b@.skills.last(), id@, name@, description@),
            b@ == (AgentCardBuilderView { skills: b@.skills, ..self@ }),
    {
        let mut b = self;
        b.skills.push(
            AgentSkill {
                id: String::from_str(id),
                name: String::from_str(name),
                description: Some(String::from_str(description)),
                tags: Vec::new(),
                examples: None,
                input_modes: None,
                output_modes: None,
            },
        );
        assert(b@.skills.take(self@.skills.len() as int) =~= self@.skills);
        b
    }

    /// The card described so far, without authentication or default modes.
    pub fn build(self) -> (card: AgentCard)
        ensures
            card.name@ == self@.name,
            card.description@ == self@.description,
            card.url@ == self@.url,
            card.version@ == self@.version,
            card.capabilities == self@.capabilities,
            card.skills@ == self@.skills,
            card.authentication is None,
            card.default_input_modes is None,
            card.default_output_modes is None,
    {
        AgentCard {
            name: self.name,
            description: self.description,
            url: self.url,
            version: self.version,
            capabilities: self.capabilities,
            skills: self.skills,
            authentication: None,
            default_input_modes: None,
            default_output_modes: None,
        }
    }
}

impl AgentCard {
    /// A builder for a card named `name` (see [`AgentCardBuilder::new`]).
    pub fn builder(name: &str) -> (b: AgentCardBuilder)
        ensures
            b@.name == name@,
            b@.description.len() == 0,
            b@.url.len() == 0,
            b@.version == "1.0.0"@,
            b@.capabilities == no_capabilities(),
            b@.skills.len() == 0,
    {
        AgentCardBuilder::new(name)
    }
}

// ---------------------------------------------------------------------------
// Card models and copies
// ---------------------------------------------------------------------------

/// Mathematical model of an [`AgentSkill`].
pub struct AgentSkillModel {
    pub id: Seq<char>,
    pub name: Seq<char>,
    pub description: Option<Seq<char>>,
    pub tags: Seq<Seq<char>>,
    pub examples: Option<Seq<Seq<char>>>,
    pub input_modes: Option<Seq<Seq<char>>>,
    pub output_modes: Option<Seq<Seq<char>>>,
}

/// Mathematical model of an [`AuthenticationInfo`].
pub struct AuthenticationModel {
    pub auth_type: Seq<char>,
    pub credentials: Option<Seq<char>>,
}

/// Mathematical model of an [`AgentCard`].
pub struct AgentCardModel {
    pub name: Seq<char>,
    pub description: Seq<char>,
    pub url: Seq<char>,
    pub version: Seq<char>,
    pub capabilities: (bool, bool, bool),
    pub skills: Seq<AgentSkillModel>,
    pub authentication: Option<AuthenticationModel>,
    pub default_input_modes: Option<Seq<Seq<char>>>,
    pub default_output_modes: Option<Seq<Seq<char>>>,
}

impl DeepView for AgentSkill {
    type V = AgentSkillModel;

    open spec fn deep_view(&self) -> AgentSkillModel {
        AgentSkillModel {
            id: self.id@,
            name: self.name@,
            description: self.description.deep_view(),
            tags: self.tags.deep_view(),
            examples: self.examples.deep_view(),
            input_modes: self.input_modes.deep_view(),
            output_modes: self.output_modes.deep_view(),
        }
    }
}

impl DeepView for AuthenticationInfo {
    type V = AuthenticationModel;

    open spec fn deep_view(&self) -> AuthenticationModel {
        AuthenticationModel { auth_type: self.auth_type@, credentials: self.credentials.deep_view() }
    }
}

impl DeepView for AgentCard {
    type V = AgentCardModel;

    open spec fn deep_view(&self) -> AgentCardModel {
        AgentCardModel {
            name: self.name@,
            description: self.description@,
            url: self.url@,
            version: self.version@,
            capabilities: (
                self.capabilities.streaming,
                self.capabilities.push_notifications,
                self.capabilities.state_transition_history,
            ),
            skills: self.skills.deep_view(),
            authentication: self.authentication.deep_view(),
            default_input_modes: self.default_input_modes.deep_view(),
            default_output_modes: self.default_output_modes.deep_view(),
        }
    }
}

/// Some skill of `card` carries the tag `tag`.
pub open spec fn card_has_tag(card: AgentCardModel, tag: Seq<char>) -> bool {
    exists|i: int, j: int|
        0 <= i < card.skills.len() && 0 <= j < card.skills[i].tags.len() && #[trigger] card.skills[i].tags[j]
            == tag
}

fn copy_text(s: &String) -> (r: String)
    ensures
        r@ == s@,
{
    s.clone()
}

fn copy_opt_text(o: &Option<String>) -> (r: Option<String>)
    ensures
        r.deep_view() == o.deep_view(),
{
    match o {
        Some(s) => Some(copy_text(s)),
        None => None,
    }
}

fn copy_text_list(v: &Vec<String>) -> (r: Vec<String>)
    ensures
        r.deep_view() == v.deep_view(),
{
    let mut r: Vec<String> = Vec::new();
    let mut i: usize = 0;
    while i < v.len()
        invariant
            i <= v@.len(),
            r@.len() == i,
            forall|j: int| 0 <= j < i ==> #[trigger] r@[j]@ == v@[j]@,
        decreases v@.len() - i,
    {
        r.push(copy_text(&v[i]));
        i = i + 1;
    }
    assert(r.deep_view() =~= v.deep_view());
    r
}

fn copy_opt_text_list(o: &Option<Vec<String>>) -> (r: Option<Vec<String>>)
    ensures
        r.deep_view() == o.deep_view(),
{
    match o {
        Some(v) => Some(copy_text_list(v)),
        None => None,
    }
}

impl AgentSkill {
    /// A copy of this skill.
    pub fn duplicate(&self) -> (r: Self)
        ensures
            r.deep_view() == self.deep_view(),
    {
        AgentSkill {
            id: copy_text(&self.id),
            name: copy_text(&self.name),
            description: copy_opt_text(&self.description),
            tags: copy_text_list(&self.tags),
            examples: copy_opt_text_list(&self.examples),
            input_modes: copy_opt_text_list(&self.input_modes),
            output_modes: copy_opt_text_list(&self.output_modes),
        }
    }
}

impl AuthenticationInfo {
    /// A copy of this descriptor.
    pub fn duplicate(&self) -> (r: Self)
        ensures
            r.deep_view() == self.deep_view(),
    {
        AuthenticationInfo { auth_type: copy_text(&self.auth_type), credentials: copy_opt_text(&self.credentials) }
    }
}

impl AgentCard {
    /// A copy of this card.
    pub fn duplicate(&self) -> (r: Self)
        ensures
            r.deep_view() == self.deep_view(),
    {
        let mut skills: Vec<AgentSkill> = Vec::new();
        let mut i: usize = 0;
        while i < self.skills.len()
            invariant
                i <= self.skills@.len(),
                skills@.len() == i,
                forall|j: int| 0 <= j < i ==> #[trigger] skills@[j].deep_view() == self.skills@[j].deep_view(),
            decreases self.skills@.len() - i,
        {
            skills.push(self.skills[i].duplicate());
            i = i + 1;
        }
        assert(skills.deep_view() =~= self.skills.deep_view());
        let authentication = match &self.authentication {
            Some(a) => Some(a.duplicate()),
            None => None,
        };
        AgentCard {
            name: copy_text(&self.name),
            description: copy_text(&self.description),
            url: copy_text(&self.url),
            version: copy_text(&self.version),
            capabilities: AgentCapabilities {
                streaming: self.capabilities.streaming,
                push_notifications: self.capabilities.push_notifications,
                state_transition_history: self.capabilities.state_transition_history,
            },
            skills,
            authentication,
            default_input_modes: copy_opt_text_list(&self.default_input_modes),
            default_output_modes: copy_opt_text_list(&self.default_output_modes),
        }
    }

    /// Whether some skill of this card carries the tag `tag`.
    pub fn has_tag(&self, tag: &str) -> (r: bool)
        ensures
            r == card_has_tag(self.deep_view(), tag@),
    {
        let mut i: usize = 0;
        while i < self.skills.len()
            invariant
                i <= self.skills@.len(),
                forall|a: int, b: int|
                    0 <= a < i && 0 <= b < self.skills@[a].tags@.len() ==> #[trigger] self.skills@[a].tags@[b]@ != tag@,
            decreases self.skills@.len() - i,
        {
            let tags = &self.skills[i].tags;
            let mut j: usize = 0;
            while j < tags.len()
                invariant
                    i < self.skills@.len(),
                    tags == &self.skills@[i as int].tags,
                    j <= tags@.len(),
                    forall|b: int| 0 <= b < j ==> #[trigger] tags@[b]@ != tag@,
                decreases tags@.len() - j,
            {
                if crate::text::str_eq(tags[j].as_str(), tag) {
                    proof {
                        let m = self.deep_view();
                        assert(m.skills[i as int].tags[j as int] == tag@);
                    }
                    return true;
                }
                j = j + 1;
            }
            i = i + 1;
        }
        proof {
            let m = self.deep_view();
            assert forall|a: int, b: int|
                0 <= a < m.skills.len() && 0 <= b < m.skills[a].tags.len() implies #[trigger] m.skills[a].tags[b] != tag@ by {
                assert(m.skills[a].tags[b] == self.skills@[a].tags@[b]@);
            }
        }
        false
    }
}

// ---------------------------------------------------------------------------
// Task lifecycle
// ---------------------------------------------------------------------------

/// Lifecycle state of a task.
#[non_exhaustive]
#[derive(Debug, Clone, Copy, PartialEq, Eq, Structural)]
pub enum TaskState {
    /// Received but not started.
    Submitted,
    /// Being processed.
    Working,
    /// Waiting for more input.
    InputRequired,
    /// Finished successfully.
    Completed,
    /// Ended with an unrecoverable error.
    Failed,
    /// Canceled by the client.
    Canceled,
}

/// Snapshot of a task's lifecycle state.
#[derive(Debug, Clone)]
pub struct TaskStatus {
    /// The lifecycle state.
    pub state: TaskState,
    /// Optional message accompanying the state transition.
    pub message: Option<Message>,
    /// ISO-8601 timestamp of the last state change.
    pub timestamp: Option<String>,
}

/// Full task record as maintained by an agent.
#[derive(Debug, Clone)]
pub struct Task {
    /// Unique task identifier (UUID v4 by default).
    pub id: String,
    /// Optional session identifier.
    pub session_id: Option<String>,
    /// Current status.
    pub status: TaskStatus,
    /// Conversation history.
    pub messages: Vec<Message>,
    /// Artifacts produced so far.
    pub artifacts: Vec<Artifact>,
    /// Application-defined metadata.
    pub metadata: Option<Metadata>,
}

/// Whether `c` is a digit or a lower-case letter `a` to `f`.
pub open spec fn is_lower_hex(c: char) -> bool {
    (48 <= c as int <= 57) || (97 <= c as int <= 102)
}

/// `s` has the shape of a hyphenated lower-case version-4 UUID, such as
/// `67e55044-10b1-426f-9247-bb680e5fe0c8`.
pub open spec fn is_uuid_v4_text(s: Seq<char>) -> bool {
    &&& s.len() == 36
    &&& forall|i: int|
        0 <= i < 36 ==> if i == 8 || i == 13 || i == 18 || i == 23 {
            s[i] == '-'
        } else {
            is_lower_hex(#[trigger] s[i])
        }
    &&& s[14] == '4'
    &&& (s[19] == '8' || s[19] == '9' || s[19] == 'a' || s[19] == 'b')
}

/// `uuid::Uuid::new_v4().to_string()`: a fresh random UUID in hyphenated
/// lower-case form. The source shows the version nibble set to 4 and the
/// variant bits to `10`; which UUID comes out is left to chance.
#[verifier::external_body]
fn new_uuid_v4_text() -> (s: String)
    ensures
        is_uuid_v4_text(s@),
{
    uuid::Uuid::new_v4().to_string()
}

impl Task {
    /// A submitted task with a fresh random id and nothing else.
    pub fn new() -> (t: Self)
        ensures
            is_uuid_v4_text(t.id@),
            t.session_id is None,
            t.status.state == TaskState::Submitted,
            t.status.message is None,
            t.status.timestamp is None,
            t.messages@.len() == 0,
            t.artifacts@.len() == 0,
            t.metadata is None,
    {
        Task {
            id: new_uuid_v4_text(),
            session_id: None,
            status: TaskStatus { state: TaskState::Submitted, message: None, timestamp: None },
            messages: Vec::new(),
            artifacts: Vec::new(),
            metadata: None,
        }
    }
}

impl Default for Task {
    fn default() -> (t: Self)
        ensures
            is_uuid_v4_text(t.id@),
            t.session_id is None,
            t.status.state == TaskState::Submitted,
            t.status.message is None,
            t.status.timestamp is None,
            t.messages@.len() == 0,
            t.artifacts@.len() == 0,
            t.metadata is None,
    {
        Self::new()
    }
}

// ---------------------------------------------------------------------------
// Messages and parts
// ---------------------------------------------------------------------------

/// Sender role of a [`Message`].
#[non_exhaustive]
#[derive(Debug, Clone, Copy, PartialEq, Eq, Structural)]
pub enum Role {
    /// A human user or upstream caller.
    User,
    /// An AI agent.
    Agent,
}

/// A message in a task conversation, made of one or more [`Part`]s.
#[derive(Debug, Clone)]
pub struct Message {
    /// Who sent this message.
    pub role: Role,
    /// Content parts.
    pub parts: Vec<Part>,
    /// Application-defined metadata.
    pub metadata: Option<Metadata>,
}

/// The text of the first text part of `parts`, if any.
pub open spec fn first_text(parts: Seq<Part>) -> Option<Seq<char>>
    decreases parts.len(),
{
    if parts.len() == 0 {
        None
    } else {
        match parts[0] {
            Part::Text(t) => Some(t.text@),
            _ => first_text(parts.drop_first()),
        }
    }
}

/// `m` is a message from `role` made of the single text part `text`,
/// without metadata.
pub open spec fn is_text_message(m: Message, role: Role, text: Seq<char>) -> bool {
    &&& m.role == role
    &&& m.parts@.len() == 1
    &&& m.parts@[0] matches Part::Text(t) && t.text@ == text
    &&& m.metadata is None
}

/// A message's text is that of its first text part, wherever it stands:
/// parts of other kinds before it are passed over, a text part at the front
/// gives its text, and a message with no text part has none.
pub proof fn lemma_first_text_skips_other_parts(pre: Seq<Part>, rest: Seq<Part>)
    requires
        forall|k: int| 0 <= k < pre.len() ==> !(#[trigger] pre[k] is Text),
    ensures
        first_text(pre + rest) == first_text(rest),
        first_text(pre) is None,
        forall|t: TextPart| first_text(pre + seq![Part::Text(t)] + rest) == Some(t.text@),
    decreases pre.len(),
{
    if pre.len() > 0 {
        let tail = pre.drop_first();
        assert forall|k: int| 0 <= k < tail.len() implies !(#[trigger] tail[k] is Text) by {
            assert(tail[k] == pre[k + 1]);
        }
        lemma_first_text_skips_other_parts(tail, rest);
        assert((pre + rest).drop_first() =~= tail + rest);
        assert((pre + rest)[0] == pre[0]);
        assert forall|t: TextPart| first_text(pre + seq![Part::Text(t)] + rest) == Some(t.text@) by {
            let all = pre + seq![Part::Text(t)] + rest;
            assert(all.drop_first() =~= tail + seq![Part::Text(t)] + rest);
            assert(all[0] == pre[0]);
        }
    } else {
        assert(pre + rest =~= rest);
        assert forall|t: TextPart| first_text(pre + seq![Part::Text(t)] + rest) == Some(t.text@) by {
            let all = pre + seq![Part::Text(t)] + rest;
            assert(all[0] == Part::Text(t));
        }
    }
}

impl Message {
    /// A user message with a single text part.
    pub fn user(text: &str) -> (m: Self)
        ensures
            is_text_message(m, Role::User, text@),
    {
        Message { role: Role::User, parts: vec![Part::text(text)], metadata: None }
    }

    /// An agent message with a single text part.
    pub fn agent(text: &str) -> (m: Self)
        ensures
            is_text_message(m, Role::Agent, text@),
    {
        Message { role: Role::Agent, parts: vec![Part::text(text)], metadata: None }
    }

    /// The text of the first text part, if the message has one.
    pub fn text_content(&self) -> (r: Option<&str>)
        ensures
            r matches Some(s) ==> first_text(self.parts@) == Some(s@),
            r is None ==> first_text(self.parts@) is None,
    {
        let mut i: usize = 0;
        assert(self.parts@.skip(0) =~= self.parts@);
        while i < self.parts.len()
            invariant
                i <= self.parts@.len(),
                first_text(self.parts@) == first_text(self.parts@.skip(i as int)),
            decreases self.parts@.len() - i,
        {
            assert(self.parts@.skip(i as int).drop_first() =~= self.parts@.skip(i + 1));
            match &self.parts[i] {
                Part::Text(t) => {
                    return Some(t.text.as_str());
                },
                _ => {},
            }
            i = i + 1;
        }
        None
    }
}

/// Content part within a message.
#[non_exhaustive]
#[derive(Debug, Clone)]
pub enum Part {
    /// Plain text.
    Text(TextPart),
    /// A file, inline or by reference.
    File(FilePart),
    /// Structured data, JSON-encoded.
    Data(DataPart),
}

impl Part {
    /// A text part.
    pub fn text(text: &str) -> (p: Self)
        ensures
            p matches Part::Text(t) && t.text@ == text@,
    {
        Part::Text(TextPart { text: String::from_str(text) })
    }

    /// A data part holding `json` as it is, without re-encoding.
    pub fn data_json(json: &str) -> (p: Self)
        ensures
            p matches Part::Data(d) && d.json@ == json@,
    {
        Part::Data(DataPart { json: String::from_str(json) })
    }
}

/// Text content.
#[derive(Debug, Clone)]
pub struct TextPart {
    /// The text.
    pub text: String,
}

/// File content.
#[derive(Debug, Clone)]
pub struct FilePart {
    /// File name.
    pub name: Option<String>,
    /// MIME type.
    pub mime_type: Option<String>,
    /// The bytes (encoded) or a URI.
    pub content: FileContent,
}

/// Where a file's content is.
#[non_exhaustive]
#[derive(Debug, Clone)]
pub enum FileContent {
    /// Inline content, encoded as text.
    Bytes(String),
    /// A URI to fetch the content from.
    Uri(String),
}

/// Structured data.
#[derive(Debug, Clone)]
pub struct DataPart {
    /// JSON-encoded payload stored as text.
    pub json: String,
}

/// Output produced by an agent.
#[derive(Debug, Clone)]
pub struct Artifact {
    /// Artifact name.
    pub name: Option<String>,
    /// Artifact description.
    pub description: Option<String>,
    /// Content parts.
    pub parts: Vec<Part>,
    /// Position among the artifacts of a task.
    pub index: u32,
    /// Whether this chunk appends to an earlier one.
    pub append: Option<bool>,
    /// Whether this is the last chunk.
    pub last_chunk: Option<bool>,
}

// ---------------------------------------------------------------------------
// Task request / response
// ---------------------------------------------------------------------------

/// Request sent to an agent to start or continue a task.
#[derive(Debug, Clone)]
pub struct TaskRequest {
    /// Task id (UUID v4 by default).
    pub id: String,
    /// Optional session grouping tasks together.
    pub session_id: Option<String>,
    /// The message that starts or continues the task.
    pub message: Message,
    /// Application-defined metadata forwarded to the agent.
    pub metadata: Option<Metadata>,
}

impl TaskRequest {
    /// A request carrying `message`, with a fresh random id.
    pub fn new(message: Message) -> (r: Self)
        ensures
            is_uuid_v4_text(r.id@),
            r.session_id is None,
            r.message == message,
            r.metadata is None,
    {
        TaskRequest { id: new_uuid_v4_text(), session_id: None, message, metadata: None }
    }

    /// The same request with id `id`.
    pub fn with_id(self, id: &str) -> (r: Self)
        ensures
            r.id@ == id@,
            r.session_id == self.session_id,
            r.message == self.message,
            r.metadata == self.metadata,
    {
        TaskRequest { id: String::from_str(id), ..self }
    }

    /// The same request in session `session_id`.
    pub fn with_session(self, session_id: &str) -> (r: Self)
        ensures
            r.id == self.id,
            r.session_id matches Some(s) && s@ == session_id@,
            r.message == self.message,
            r.metadata == self.metadata,
    {
        TaskRequest { session_id: Some(String::from_str(session_id)), ..self }
    }
}

/// Response returned by an agent after processing a [`TaskRequest`].
#[derive(Debug, Clone)]
pub struct TaskResponse {
    /// Echoes the id of the request.
    pub id: String,
    /// Optional session identifier.
    pub session_id: Option<String>,
    /// Final or intermediate status.
    pub status: TaskStatus,
    /// Artifacts produced by the agent.
    pub artifacts: Vec<Artifact>,
    /// Application-defined metadata.
    pub metadata: Option<Metadata>,
}

/// `r` answers task `id` in state `state` with `message`, and carries
/// nothing else.
pub open spec fn is_bare_response(r: TaskResponse, id: Seq<char>, state: TaskState) -> bool {
    &&& r.id@ == id
    &&& r.session_id is None
    &&& r.status.state == state
    &&& r.status.timestamp is None
    &&& r.artifacts@.len() == 0
    &&& r.metadata is None
}

impl TaskResponse {
    /// A completed task answered by `message`.
    pub fn completed(id: &str, message: Message) -> (r: Self)
        ensures
            is_bare_response(r, id@, TaskState::Completed),
            r.status.message == Some(message),
    {
        TaskResponse {
            id: String::from_str(id),
            session_id: None,
            status: TaskStatus { state: TaskState::Completed, message: Some(message), timestamp: None },
            artifacts: Vec::new(),
            metadata: None,
        }
    }

    /// A failed task, explained by an agent message with text `error_msg`.
    pub fn failed(id: &str, error_msg: &str) -> (r: Self)
        ensures
            is_bare_response(r, id@, TaskState::Failed),
            r.status.message matches Some(m) && is_text_message(m, Role::Agent, error_msg@),
    {
        TaskResponse {
            id: String::from_str(id),
            session_id: None,
            status: TaskStatus {
                state: TaskState::Failed,
                message: Some(Message::agent(error_msg)),
                timestamp: None,
            },
            artifacts: Vec::new(),
            metadata: None,
        }
    }

    /// A task still being worked on, with progress `message`.
    pub fn working(id: &str, message: Message) -> (r: Self)
        ensures
            is_bare_response(r, id@, TaskState::Working),
            r.status.message == Some(message),
    {
        TaskResponse {
            id: String::from_str(id),
            session_id: None,
            status: TaskStatus { state: TaskState::Working, message: Some(message), timestamp: None },
            artifacts: Vec::new(),
            metadata: None,
        }
    }

    /// The same response with `artifact` appended to its artifacts.
    pub fn with_artifact(self, artifact: Artifact) -> (r: Self)
        ensures
            r.id == self.id,
            r.session_id == self.session_id,
            r.status == self.status,
            r.artifacts@ == self.artifacts@.push(artifact),
            r.metadata == self.metadata,
    {
        let mut r = self;
        r.artifacts.push(artifact);
        r
    }
}

} // verus!
