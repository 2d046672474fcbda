//! Episodic memory content: conversations, events and observations, with the
//! text each one is embedded and indexed by.

use vstd::prelude::*;

use crate::clock::now_millis;
use crate::ids::SessionId;
use crate::memory::MemoryCommon;
use crate::semantic::{line_of, list_line, push_line, push_list_line, push_optional_line};
use crate::text::{extend_owned, join, joined, opt_text, owned, str_eq, texts};

verus! {

/// Role of a message sender.
#[derive(Debug, Clone, Copy, PartialEq, Eq, Structural)]
pub enum MessageRole {
    User,
    Assistant,
    System,
    Tool,
    Function,
}

/// The lower-case name of a role.
pub open spec fn role_name(r: MessageRole) -> Seq<char> {
    match r {
        MessageRole::User => "user"@,
        MessageRole::Assistant => "assistant"@,
        MessageRole::System => "system"@,
        MessageRole::Tool => "tool"@,
        MessageRole::Function => "function"@,
    }
}

impl MessageRole {
    /// The lower-case name of this role.
    pub fn name(&self) -> (r: &'static str)
        ensures
            r@ == role_name(*self),
    {
        match self {
            MessageRole::User => "user",
            MessageRole::Assistant => "assistant",
            MessageRole::System => "system",
            MessageRole::Tool => "tool",
            MessageRole::Function => "function",
        }
    }
}

/// A message in a conversation.
#[derive(Debug, Clone)]
pub struct Message {
    /// Role of the speaker
    pub role: MessageRole,
    /// Content of the message
    pub content: String,
    /// When this message was sent, in milliseconds since the Unix epoch
    pub timestamp_ms: i64,
    /// Optional name for the speaker
    pub name: Option<String>,
    /// Additional metadata as JSON text (e.g., tool calls, function results)
    pub metadata: Option<String>,
}

impl Message {
    /// Create a new message, stamped with the current time.
    pub fn new(role: MessageRole, content: &str) -> (r: Self)
        ensures
            r.role == role,
            r.content@ == content@,
            r.name is None,
            r.metadata is None,
    {
        Message { role, content: owned(content), timestamp_ms: now_millis(), name: None, metadata: None }
    }

    /// Create a user message.
    pub fn user(content: &str) -> (r: Self)
        ensures
            r.role == MessageRole::User,
            r.content@ == content@,
            r.name is None,
            r.metadata is None,
    {
        Self::new(MessageRole::User, content)
    }

    /// Create an assistant message.
    pub fn assistant(content: &str) -> (r: Self)
        ensures
            r.role == MessageRole::Assistant,
            r.content@ == content@,
            r.name is None,
            r.metadata is None,
    {
        Self::new(MessageRole::Assistant, content)
    }

    /// Create a system message.
    pub fn system(content: &str) -> (r: Self)
        ensures
            r.role == MessageRole::System,
            r.content@ == content@,
            r.name is None,
            r.metadata is None,
    {
        Self::new(MessageRole::System, content)
    }

    /// Set the speaker name.
    pub fn with_name(self, name: &str) -> (r: Self)
        ensures
            r == (Message { name: r.name, ..self }),
            opt_text(r.name) == Some(name@),
    {
        Message { name: Some(owned(name)), ..self }
    }
}

/// The line a message is shown with: "ROLE: CONTENT".
pub open spec fn message_line(m: Message) -> Seq<char> {
    role_name(m.role) + ": "@ + m.content@
}

/// A conversation or conversation segment.
#[derive(Debug, Clone)]
pub struct ConversationMemory {
    /// The session this conversation belongs to
    pub session_id: SessionId,
    /// Messages in this conversation segment
    pub messages: Vec<Message>,
    /// Summary of the conversation
    pub summary: Option<String>,
    /// Topics discussed
    pub topics: Vec<String>,
    /// When the conversation started, in milliseconds since the Unix epoch
    pub started_at_ms: i64,
    /// When the conversation ended (if known)
    pub ended_at_ms: Option<i64>,
    /// Sentiment/tone of the conversation
    pub sentiment: Option<String>,
    /// Whether this is a complete conversation or a segment
    pub is_complete: bool,
}

/// The lines describing a conversation: the summary and topics when known,
/// then one line per message.
pub open spec fn conversation_lines(c: ConversationMemory) -> Seq<Seq<char>> {
    line_of(c.summary, "Summary: "@) + list_line("Topics: "@, c.topics@) + c.messages@.map_values(
        |m: Message| message_line(m),
    )
}

impl ConversationMemory {
    /// Create a new conversation memory, started now.
    pub fn new(session_id: SessionId, messages: Vec<Message>) -> (r: Self)
        ensures
            r.session_id == session_id,
            r.messages@ == messages@,
            r.summary is None,
            r.topics@.len() == 0,
            r.ended_at_ms is None,
            r.sentiment is None,
            !r.is_complete,
    {
        ConversationMemory {
            session_id,
            messages,
            summary: None,
            topics: Vec::new(),
            started_at_ms: now_millis(),
            ended_at_ms: None,
            sentiment: None,
            is_complete: false,
        }
    }

    /// Set the summary.
    pub fn with_summary(self, summary: &str) -> (r: Self)
        ensures
            r == (ConversationMemory { summary: r.summary, ..self }),
            opt_text(r.summary) == Some(summary@),
    {
        ConversationMemory { summary: Some(owned(summary)), ..self }
    }

    /// Add topics.
    pub fn with_topics(self, topics: Vec<&str>) -> (r: Self)
        ensures
            r == (ConversationMemory { topics: r.topics, ..self }),
            texts(r.topics@) == texts(self.topics@) + topics@.map_values(|s: &str| s@),
    {
        let mut s = self;
        extend_owned(&mut s.topics, &topics);
        s
    }

    /// Get text content for embedding.
    pub fn text_content(&self) -> (r: String)
        ensures
            r@ == joined(conversation_lines(*self), "\n"@),
    {
        let mut parts: Vec<String> = Vec::new();
        push_optional_line(&mut parts, "Summary: ", &self.summary);
        push_list_line(&mut parts, "Topics: ", &self.topics);
        let ghost head = texts(parts@);
        let mut i: usize = 0;
        while i < self.messages.len()
            invariant
                i <= self.messages@.len(),
                texts(parts@) == head + self.messages@.take(i as int).map_values(
                    |m: Message| message_line(m),
                ),
            decreases self.messages.len() - i,
        {
            let msg = &self.messages[i];
            let mut line = owned(msg.role.name());
            line.append(": ");
            line.append(msg.content.as_str());
            let ghost before = parts@;
            parts.push(line);
            assert(texts(parts@) =~= texts(before).push(message_line(self.messages@[i as int])));
            assert(self.messages@.take(i as int + 1).map_values(|m: Message| message_line(m))
                =~= self.messages@.take(i as int).map_values(|m: Message| message_line(m)).push(
                message_line(self.messages@[i as int]),
            ));
            i += 1;
        }
        assert(self.messages@.take(self.messages@.len() as int) =~= self.messages@);
        assert(texts(parts@) =~= conversation_lines(*self));
        join(&parts, "\n")
    }
}

/// The lines describing an event: its headline (the bare description for a
/// conversation message, "Event: TYPE - DESCRIPTION" otherwise), then the
/// participants, location and outcome when known.
pub open spec fn event_lines(
    event_type: Seq<char>,
    description: Seq<char>,
    participants: Seq<String>,
    location: Option<String>,
    outcome: Option<String>,
) -> Seq<Seq<char>> {
    let first = if event_type == "conversation_message"@ {
        description
    } else {
        "Event: "@ + event_type + " - "@ + description
    };
    seq![first] + list_line("Participants: "@, participants) + line_of(location, "Location: "@)
        + line_of(outcome, "Outcome: "@)
}

/// Text content of an event memory, from the fields it shows.
pub fn event_text(
    event_type: &str,
    description: &str,
    participants: &Vec<String>,
    location: &Option<String>,
    outcome: &Option<String>,
) -> (r: String)
    ensures
        r@ == joined(
            event_lines(event_type@, description@, participants@, *location, *outcome),
            "\n"@,
        ),
{
    let first = if str_eq(event_type, "conversation_message") {
        owned(description)
    } else {
        let mut f = owned("Event: ");
        f.append(event_type);
        f.append(" - ");
        f.append(description);
        f
    };
    let mut parts: Vec<String> = Vec::new();
    parts.push(first);
    push_list_line(&mut parts, "Participants: ", participants);
    push_optional_line(&mut parts, "Location: ", location);
    push_optional_line(&mut parts, "Outcome: ", outcome);
    assert(texts(parts@) =~= event_lines(
        event_type@,
        description@,
        participants@,
        *location,
        *outcome,
    ));
    join(&parts, "\n")
}

/// A significant event.
#[derive(Debug, Clone)]
pub struct EventMemory {
    /// Type of event
    pub event_type: String,
    /// Description of what happened
    pub description: String,
    /// When the event occurred, in milliseconds since the Unix epoch
    pub occurred_at_ms: i64,
    /// How long it lasted, in milliseconds
    pub duration_ms: Option<i64>,
    /// Participants
    pub participants: Vec<String>,
    /// Location
    pub location: Option<String>,
    /// Outcome or result
    pub outcome: Option<String>,
    /// Significance in [0.0, 1.0] (an `f64` bit pattern)
    pub significance: u64,
    /// Emotional valence in [-1.0, 1.0] (an `f64` bit pattern)
    pub emotional_valence: Option<u64>,
}

impl EventMemory {
    /// Create a new event, occurring now, of significance 0.5.
    pub fn new(event_type: &str, description: &str) -> (r: Self)
        ensures
            r.event_type@ == event_type@,
            r.description@ == description@,
            r.occurred_at_ms >= 0,
            r.duration_ms is None,
            r.participants@.len() == 0,
            r.location is None,
            r.outcome is None,
            r.significance == 0x3FE0_0000_0000_0000u64,
            r.emotional_valence is None,
    {
        EventMemory {
            event_type: owned(event_type),
            description: owned(description),
            occurred_at_ms: now_millis(),
            duration_ms: None,
            participants: Vec::new(),
            location: None,
            outcome: None,
            significance: 0x3FE0_0000_0000_0000u64,
            emotional_valence: None,
        }
    }

    /// Add participants.
    pub fn with_participants(self, participants: Vec<&str>) -> (r: Self)
        ensures
            r == (EventMemory { participants: r.participants, ..self }),
            texts(r.participants@) == texts(self.participants@) + participants@.map_values(
                |s: &str| s@,
            ),
    {
        let mut all = self.participants;
        extend_owned(&mut all, &participants);
        EventMemory { participants: all, ..self }
    }

    /// Set the location.
    pub fn with_location(self, location: &str) -> (r: Self)
        ensures
            r == (EventMemory { location: r.location, ..self }),
            opt_text(r.location) == Some(location@),
    {
        EventMemory { location: Some(owned(location)), ..self }
    }

    /// Set the outcome.
    pub fn with_outcome(self, outcome: &str) -> (r: Self)
        ensures
            r == (EventMemory { outcome: r.outcome, ..self }),
            opt_text(r.outcome) == Some(outcome@),
    {
        EventMemory { outcome: Some(owned(outcome)), ..self }
    }

    /// Get text content for embedding.
    pub fn text_content(&self) -> (r: String)
        ensures
            r@ == joined(
                event_lines(
                    self.event_type@,
                    self.description@,
                    self.participants@,
                    self.location,
                    self.outcome,
                ),
                "\n"@,
            ),
    {
        event_text(&self.event_type, &self.description, &self.participants, &self.location, &self.outcome)
    }
}

/// An observation about the world.
#[derive(Debug, Clone)]
pub struct ObservationMemory {
    /// What was observed
    pub content: String,
    /// Category of observation
    pub category: Option<String>,
    /// Subject of observation
    pub subject: Option<String>,
    /// When this was observed, in milliseconds since the Unix epoch
    pub observed_at_ms: i64,
    /// Context in which it was observed
    pub context: Option<String>,
    /// Whether this has been verified
    pub verified: bool,
    /// Source of the observation
    pub source: Option<String>,
}

/// The lines describing an observation.
pub open spec fn observation_lines(o: ObservationMemory) -> Seq<Seq<char>> {
    seq!["Observation: "@ + o.content@] + line_of(o.category, "Category: "@) + line_of(
        o.subject,
        "Subject: "@,
    ) + line_of(o.context, "Context: "@)
}

impl ObservationMemory {
    /// Create a new observation, made now.
    pub fn new(content: &str) -> (r: Self)
        ensures
            r.content@ == content@,
            r.category is None,
            r.subject is None,
            r.context is None,
            !r.verified,
            r.source is None,
    {
        ObservationMemory {
            content: owned(content),
            category: None,
            subject: None,
            observed_at_ms: now_millis(),
            context: None,
            verified: false,
            source: None,
        }
    }

    /// Set the category.
    pub fn with_category(self, category: &str) -> (r: Self)
        ensures
            r == (ObservationMemory { category: r.category, ..self }),
            opt_text(r.category) == Some(category@),
    {
        ObservationMemory { category: Some(owned(category)), ..self }
    }

    /// Set the subject.
    pub fn with_subject(self, subject: &str) -> (r: Self)
        ensures
            r == (ObservationMemory { subject: r.subject, ..self }),
            opt_text(r.subject) == Some(subject@),
    {
        ObservationMemory { subject: Some(owned(subject)), ..self }
    }

    /// Mark as verified.
    pub fn verified(self) -> (r: Self)
        ensures
            r == (ObservationMemory { verified: true, ..self }),
    {
        ObservationMemory { verified: true, ..self }
    }

    /// Get text content for embedding.
    pub fn text_content(&self) -> (r: String)
        ensures
            r@ == joined(observation_lines(*self), "\n"@),
    {
        let mut parts: Vec<String> = Vec::new();
        push_line(&mut parts, "Observation: ", &self.content);
        push_optional_line(&mut parts, "Category: ", &self.category);
        push_optional_line(&mut parts, "Subject: ", &self.subject);
        push_optional_line(&mut parts, "Context: ", &self.context);
        assert(texts(parts@) =~= observation_lines(*self));
        join(&parts, "\n")
    }
}

/// Types of episodic content.
#[derive(Debug, Clone)]
pub enum EpisodicContent {
    /// A conversation or part of one
    Conversation(ConversationMemory),
    /// A significant event
    Event(EventMemory),
    /// An observation about the world
    Observation(ObservationMemory),
}

/// Episodic memory containing experiential data.
#[derive(Debug, Clone)]
pub struct EpisodicMemory {
    /// Common memory fields
    pub common: MemoryCommon,
    /// The specific episodic content
    pub content: EpisodicContent,
}

/// The text an episodic content is embedded by.
pub open spec fn episodic_text(c: EpisodicContent) -> Seq<char> {
    match c {
        EpisodicContent::Conversation(m) => joined(conversation_lines(m), "\n"@),
        EpisodicContent::Event(e) => joined(
            event_lines(e.event_type@, e.description@, e.participants@, e.location, e.outcome),
            "\n"@,
        ),
        EpisodicContent::Observation(o) => joined(observation_lines(o), "\n"@),
    }
}

impl EpisodicMemory {
    /// Get text content for embedding/indexing.
    pub fn text_content(&self) -> (r: String)
        ensures
            r@ == episodic_text(self.content),
    {
        match &self.content {
            EpisodicContent::Conversation(c) => c.text_content(),
            EpisodicContent::Event(e) => e.text_content(),
            EpisodicContent::Observation(o) => o.text_content(),
        }
    }
}

} // verus!
