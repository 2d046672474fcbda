//! The fields every memory shares: identity, version for optimistic
//! concurrency, confidence (an `f64` bit pattern), embedding, tags, metadata
//! (values as JSON texts), owner, and the span of real-world time during
//! which the memory holds, in nanoseconds since the Unix epoch, and its
//! provenance.

use vstd::prelude::*;

use crate::clock::now_nanos;
use crate::embedding::Embedding;
use crate::entries::{lookup, set_entry};
use crate::agent_state::{AgentStateContent, AgentStateMemory};
use crate::episodic::{EpisodicContent, EpisodicMemory};
use crate::ids::{is_v7, AgentId, MemoryId};
use crate::memory_type::{category_of, MemoryCategory, MemoryType};
use crate::procedural::{ProceduralContent, ProceduralMemory};
use crate::provenance::Provenance;
use crate::semantic::{SemanticContent, SemanticMemory};
use crate::text::{extend_owned, opt_text, owned, texts};

verus! {

/// The `f64` bit pattern of 0.5, the confidence of a new memory.
pub const DEFAULT_CONFIDENCE_BITS: u64 = 0x3FE0_0000_0000_0000;

/// A memory holds at `at` when `at` is at or after its start (if any) and
/// before its end (if any).
pub open spec fn holds_at(valid_from: Option<i128>, valid_until: Option<i128>, at: i128) -> bool {
    &&& (valid_from matches Some(from) ==> at >= from)
    &&& (valid_until matches Some(until) ==> at < until)
}

/// Common fields shared by all memory types.
#[derive(Debug, Clone)]
pub struct MemoryCommon {
    /// Unique identifier for this memory
    pub id: MemoryId,
    /// Version number for optimistic concurrency
    pub version: u64,
    /// Confidence score (an `f64` bit pattern)
    pub confidence: u64,
    /// Provenance information
    pub provenance: Provenance,
    /// Vector embedding for semantic search
    pub embedding: Option<Embedding>,
    /// Tags for categorization
    pub tags: Vec<String>,
    /// Additional metadata, values as JSON texts
    pub metadata: Vec<(String, String)>,
    /// Agent that owns this memory
    pub agent_id: AgentId,
    /// When this fact became true in the real world; `None` for unknown
    pub valid_from_ns: Option<i128>,
    /// When this fact stopped being true; `None` while it still holds
    pub valid_until_ns: Option<i128>,
}

impl MemoryCommon {
    /// New common fields for a memory of `agent_id` with the given
    /// provenance: a fresh identifier, version 1, the default confidence,
    /// nothing else set.
    pub fn new(agent_id: AgentId, provenance: Provenance) -> (r: Self)
        ensures
            is_v7(r.id.0),
            r.version == 1,
            r.confidence == DEFAULT_CONFIDENCE_BITS,
            r.provenance == provenance,
            r.embedding is None,
            r.tags@.len() == 0,
            r.metadata@.len() == 0,
            r.agent_id == agent_id,
            r.valid_from_ns is None,
            r.valid_until_ns is None,
    {
        MemoryCommon {
            id: MemoryId::new(),
            version: 1,
            confidence: DEFAULT_CONFIDENCE_BITS,
            provenance,
            embedding: None,
            tags: Vec::new(),
            metadata: Vec::new(),
            agent_id,
            valid_from_ns: None,
            valid_until_ns: None,
        }
    }

    /// Set confidence (an `f64` bit pattern).
    pub fn with_confidence(self, confidence: u64) -> (r: Self)
        ensures
            r == (MemoryCommon { confidence, ..self }),
    {
        MemoryCommon { confidence, ..self }
    }

    /// Add a tag.
    pub fn with_tag(self, tag: &str) -> (r: Self)
        ensures
            r == (MemoryCommon { tags: r.tags, ..self }),
            texts(r.tags@) == texts(self.tags@).push(tag@),
    {
        let mut tags = self.tags;
        let ghost before = tags@;
        tags.push(owned(tag));
        assert(texts(tags@) =~= texts(before).push(tag@));
        MemoryCommon { tags, ..self }
    }

    /// Add tags.
    pub fn with_tags(self, tags: Vec<&str>) -> (r: Self)
        ensures
            r == (MemoryCommon { tags: r.tags, ..self }),
            texts(r.tags@) == texts(self.tags@) + tags@.map_values(|s: &str| s@),
    {
        let mut all = self.tags;
        extend_owned(&mut all, &tags);
        MemoryCommon { tags: all, ..self }
    }

    /// Set a metadata value (a JSON text), replacing any value of the key.
    pub fn with_metadata(self, key: &str, value: &str) -> (r: Self)
        ensures
            r == (MemoryCommon { metadata: r.metadata, ..self }),
            forall|k: Seq<char>|
                lookup(r.metadata@, k) == (if k == key@ {
                    Some(value@)
                } else {
                    lookup(self.metadata@, k)
                }),
    {
        let mut metadata = self.metadata;
        set_entry(&mut metadata, owned(key), owned(value));
        MemoryCommon { metadata, ..self }
    }

    /// Set embedding.
    pub fn with_embedding(self, embedding: Embedding) -> (r: Self)
        ensures
            r == (MemoryCommon { embedding: Some(embedding), ..self }),
    {
        MemoryCommon { embedding: Some(embedding), ..self }
    }

    /// Set when this fact became true in the real world.
    pub fn with_valid_from(self, valid_from_ns: i128) -> (r: Self)
        ensures
            r == (MemoryCommon { valid_from_ns: Some(valid_from_ns), ..self }),
    {
        MemoryCommon { valid_from_ns: Some(valid_from_ns), ..self }
    }

    /// Set when this fact stopped being true in the real world.
    pub fn with_valid_until(self, valid_until_ns: i128) -> (r: Self)
        ensures
            r == (MemoryCommon { valid_until_ns: Some(valid_until_ns), ..self }),
    {
        MemoryCommon { valid_until_ns: Some(valid_until_ns), ..self }
    }

    /// Mark this memory as no longer valid: its validity ends now.
    pub fn invalidate(&mut self)
        ensures
            *final(self) == (MemoryCommon { valid_until_ns: final(self).valid_until_ns, ..*old(self) }),
            final(self).valid_until_ns matches Some(t) && t >= 0,
    {
        self.valid_until_ns = Some(now_nanos());
    }

    /// Whether this memory was valid at instant `at_ns`: at or after its
    /// start, and before its end.
    pub fn was_valid_at(&self, at_ns: i128) -> (r: bool)
        ensures
            r == holds_at(self.valid_from_ns, self.valid_until_ns, at_ns),
    {
        let after_start = match self.valid_from_ns {
            Some(from) => at_ns >= from,
            None => true,
        };
        let before_end = match self.valid_until_ns {
            Some(until) => at_ns < until,
            None => true,
        };
        after_start && before_end
    }

    /// Whether this memory is currently valid: its end, if any, is still in
    /// the future. The start is not consulted.
    pub fn is_valid(&self) -> (r: bool)
        ensures
            self.valid_until_ns is None ==> r,
            self.valid_until_ns matches Some(t) && t < 0 ==> !r,
    {
        match self.valid_until_ns {
            None => true,
            Some(until) => until > now_nanos(),
        }
    }

    /// Increment version.
    pub fn increment_version(&mut self)
        requires
            old(self).version < u64::MAX,
        ensures
            *final(self) == (MemoryCommon { version: (old(self).version + 1) as u64, ..*old(self) }),
    {
        self.version = self.version + 1;
    }

    /// Record an access to this memory in its provenance.
    pub fn record_access(&mut self)
        requires
            old(self).provenance.access_count < u64::MAX,
        ensures
            *final(self) == (MemoryCommon { provenance: final(self).provenance, ..*old(self) }),
            final(self).provenance == (Provenance {
                access_count: (old(self).provenance.access_count + 1) as u64,
                last_accessed_ms: final(self).provenance.last_accessed_ms,
                ..old(self).provenance
            }),
            final(self).provenance.last_accessed_ms >= 0,
    {
        self.provenance.record_access();
    }
}

/// A memory valid at an instant is no longer valid at or after the instant
/// its validity ends.
pub proof fn lemma_invalid_after_end(valid_from: Option<i128>, until: i128, at: i128)
    requires
        at >= until,
    ensures
        !holds_at(valid_from, Some(until), at),
{
}

/// The core memory type: every category of LLM memory, organized into four
/// kinds that mirror cognitive science models.
#[derive(Debug, Clone)]
pub enum Memory {
    /// Episodic memories: conversations, events, observations
    Episodic(EpisodicMemory),
    /// Semantic memories: facts, preferences, concepts, entities
    Semantic(SemanticMemory),
    /// Procedural memories: workflows, skills, patterns, cases
    Procedural(ProceduralMemory),
    /// Agent state: goals, tasks, working memory
    AgentState(AgentStateMemory),
}

/// The common fields of a memory.
pub open spec fn common_of(m: Memory) -> MemoryCommon {
    match m {
        Memory::Episodic(e) => e.common,
        Memory::Semantic(s) => s.common,
        Memory::Procedural(p) => p.common,
        Memory::AgentState(a) => a.common,
    }
}

/// A memory with its common fields replaced by `c`.
pub open spec fn with_common(m: Memory, c: MemoryCommon) -> Memory {
    match m {
        Memory::Episodic(e) => Memory::Episodic(EpisodicMemory { common: c, ..e }),
        Memory::Semantic(s) => Memory::Semantic(SemanticMemory { common: c, ..s }),
        Memory::Procedural(p) => Memory::Procedural(ProceduralMemory { common: c, ..p }),
        Memory::AgentState(a) => Memory::AgentState(AgentStateMemory { common: c, ..a }),
    }
}

/// The memory type of a memory: its kind and the variant of its content.
pub open spec fn memory_type_of(m: Memory) -> MemoryType {
    match m {
        Memory::Episodic(e) => match e.content {
            EpisodicContent::Conversation(_) => MemoryType::EpisodicConversation,
            EpisodicContent::Event(_) => MemoryType::EpisodicEvent,
            EpisodicContent::Observation(_) => MemoryType::EpisodicObservation,
        },
        Memory::Semantic(s) => match s.content {
            SemanticContent::Fact(_) => MemoryType::SemanticFact,
            SemanticContent::Preference(_) => MemoryType::SemanticPreference,
            SemanticContent::Concept(_) => MemoryType::SemanticConcept,
            SemanticContent::Entity(_) => MemoryType::SemanticEntity,
        },
        Memory::Procedural(p) => match p.content {
            ProceduralContent::Workflow(_) => MemoryType::ProceduralWorkflow,
            ProceduralContent::Skill(_) => MemoryType::ProceduralSkill,
            ProceduralContent::Pattern(_) => MemoryType::ProceduralPattern,
            ProceduralContent::Case(_) => MemoryType::ProceduralCase,
        },
        Memory::AgentState(a) => match a.content {
            AgentStateContent::Goal(_) => MemoryType::AgentStateGoal,
            AgentStateContent::Task(_) => MemoryType::AgentStateTask,
            AgentStateContent::WorkingMemory(_) => MemoryType::AgentStateWorkingMemory,
        },
    }
}

/// The primary text field of a memory: a fact's statement, a preference, a
/// concept's definition, an entity's description, a conversation's summary,
/// the description of an event, workflow, skill, pattern, goal or task, an
/// observation's or working memory item's content, or a case's outcome.
pub open spec fn primary_text(m: Memory) -> Option<Seq<char>> {
    match m {
        Memory::Semantic(s) => match s.content {
            SemanticContent::Fact(f) => Some(f.statement@),
            SemanticContent::Preference(p) => Some(p.preference@),
            SemanticContent::Concept(c) => Some(c.definition@),
            SemanticContent::Entity(e) => opt_text(e.description),
        },
        Memory::Episodic(e) => match e.content {
            EpisodicContent::Conversation(c) => opt_text(c.summary),
            EpisodicContent::Event(ev) => Some(ev.description@),
            EpisodicContent::Observation(o) => Some(o.content@),
        },
        Memory::Procedural(p) => match p.content {
            ProceduralContent::Workflow(w) => Some(w.description@),
            ProceduralContent::Skill(sk) => Some(sk.description@),
            ProceduralContent::Pattern(pat) => Some(pat.description@),
            ProceduralContent::Case(c) => Some(c.outcome@),
        },
        Memory::AgentState(a) => match a.content {
            AgentStateContent::Goal(g) => Some(g.description@),
            AgentStateContent::Task(t) => opt_text(t.description),
            AgentStateContent::WorkingMemory(w) => Some(w.content@),
        },
    }
}

/// `after` is `before` with only its primary text field set to `t`.
pub open spec fn text_replaced(before: Memory, after: Memory, t: Seq<char>) -> bool {
    &&& primary_text(after) == Some(t)
    &&& match (before, after) {
        (Memory::Semantic(b), Memory::Semantic(a)) => a.common == b.common && match (
            b.content,
            a.content,
        ) {
            (SemanticContent::Fact(x), SemanticContent::Fact(y)) => y == (crate::semantic::FactMemory {
                statement: y.statement,
                ..x
            }),
            (SemanticContent::Preference(x), SemanticContent::Preference(y)) => y == (
            crate::semantic::PreferenceMemory { preference: y.preference, ..x }),
            (SemanticContent::Concept(x), SemanticContent::Concept(y)) => y == (
            crate::semantic::ConceptMemory { definition: y.definition, ..x }),
            (SemanticContent::Entity(x), SemanticContent::Entity(y)) => y == (
            crate::semantic::EntityMemory { description: y.description, ..x }),
            _ => false,
        },
        (Memory::Episodic(b), Memory::Episodic(a)) => a.common == b.common && match (
            b.content,
            a.content,
        ) {
            (EpisodicContent::Conversation(x), EpisodicContent::Conversation(y)) => y == (
            crate::episodic::ConversationMemory { summary: y.summary, ..x }),
            (EpisodicContent::Event(x), EpisodicContent::Event(y)) => y == (
            crate::episodic::EventMemory { description: y.description, ..x }),
            (EpisodicContent::Observation(x), EpisodicContent::Observation(y)) => y == (
            crate::episodic::ObservationMemory { content: y.content, ..x }),
            _ => false,
        },
        (Memory::Procedural(b), Memory::Procedural(a)) => a.common == b.common && match (
            b.content,
            a.content,
        ) {
            (ProceduralContent::Workflow(x), ProceduralContent::Workflow(y)) => y == (
            crate::procedural::WorkflowMemory { description: y.description, ..x }),
            (ProceduralContent::Skill(x), ProceduralContent::Skill(y)) => y == (
            crate::procedural::SkillMemory { description: y.description, ..x }),
            (ProceduralContent::Pattern(x), ProceduralContent::Pattern(y)) => y == (
            crate::procedural::PatternMemory { description: y.description, ..x }),
            (ProceduralContent::Case(x), ProceduralContent::Case(y)) => y == (
            crate::procedural::CaseMemory { outcome: y.outcome, ..x }),
            _ => false,
        },
        (Memory::AgentState(b), Memory::AgentState(a)) => a.common == b.common && match (
            b.content,
            a.content,
        ) {
            (AgentStateContent::Goal(x), AgentStateContent::Goal(y)) => y == (
            crate::agent_state::Goal { description: y.description, ..x }),
            (AgentStateContent::Task(x), AgentStateContent::Task(y)) => y == (
            crate::agent_state::Task { description: y.description, ..x }),
            (AgentStateContent::WorkingMemory(x), AgentStateContent::WorkingMemory(y)) => y == (
            crate::agent_state::WorkingMemoryItem { content: y.content, ..x }),
            _ => false,
        },
        _ => false,
    }
}

impl Memory {
    /// Get the common fields for this memory.
    pub fn common(&self) -> (r: &MemoryCommon)
        ensures
            *r == common_of(*self),
    {
        match self {
            Memory::Episodic(m) => &m.common,
            Memory::Semantic(m) => &m.common,
            Memory::Procedural(m) => &m.common,
            Memory::AgentState(m) => &m.common,
        }
    }

    /// Get mutable access to the common fields; the content stays as it is.
    pub fn common_mut(&mut self) -> (r: &mut MemoryCommon)
        ensures
            *r == common_of(*old(self)),
            *final(self) == with_common(*old(self), *final(r)),
    {
        match self {
            Memory::Episodic(m) => &mut m.common,
            Memory::Semantic(m) => &mut m.common,
            Memory::Procedural(m) => &mut m.common,
            Memory::AgentState(m) => &mut m.common,
        }
    }

    /// Get the memory ID.
    pub fn id(&self) -> (r: &MemoryId)
        ensures
            *r == common_of(*self).id,
    {
        &self.common().id
    }

    /// Get the memory type.
    pub fn memory_type(&self) -> (r: MemoryType)
        ensures
            r == memory_type_of(*self),
    {
        match self {
            Memory::Episodic(e) => match e.content {
                EpisodicContent::Conversation(_) => MemoryType::EpisodicConversation,
                EpisodicContent::Event(_) => MemoryType::EpisodicEvent,
                EpisodicContent::Observation(_) => MemoryType::EpisodicObservation,
            },
            Memory::Semantic(s) => match s.content {
                SemanticContent::Fact(_) => MemoryType::SemanticFact,
                SemanticContent::Preference(_) => MemoryType::SemanticPreference,
                SemanticContent::Concept(_) => MemoryType::SemanticConcept,
                SemanticContent::Entity(_) => MemoryType::SemanticEntity,
            },
            Memory::Procedural(p) => match p.content {
                ProceduralContent::Workflow(_) => MemoryType::ProceduralWorkflow,
                ProceduralContent::Skill(_) => MemoryType::ProceduralSkill,
                ProceduralContent::Pattern(_) => MemoryType::ProceduralPattern,
                ProceduralContent::Case(_) => MemoryType::ProceduralCase,
            },
            Memory::AgentState(a) => match a.content {
                AgentStateContent::Goal(_) => MemoryType::AgentStateGoal,
                AgentStateContent::Task(_) => MemoryType::AgentStateTask,
                AgentStateContent::WorkingMemory(_) => MemoryType::AgentStateWorkingMemory,
            },
        }
    }

    /// Get the confidence score (an `f64` bit pattern).
    pub fn confidence(&self) -> (r: u64)
        ensures
            r == common_of(*self).confidence,
    {
        self.common().confidence
    }

    /// Get the embedding if present.
    pub fn embedding(&self) -> (r: Option<&Embedding>)
        ensures
            r == (match common_of(*self).embedding {
                Some(e) => Some(&e),
                None => None,
            }),
    {
        match &self.common().embedding {
            Some(e) => Some(e),
            None => None,
        }
    }

    /// Set the embedding.
    pub fn set_embedding(&mut self, embedding: Embedding)
        ensures
            memory_type_of(*final(self)) == memory_type_of(*old(self)),
            common_of(*final(self)) == (MemoryCommon { embedding: Some(embedding), ..common_of(*old(self)) }),
    {
        match self {
            Memory::Episodic(m) => m.common.embedding = Some(embedding),
            Memory::Semantic(m) => m.common.embedding = Some(embedding),
            Memory::Procedural(m) => m.common.embedding = Some(embedding),
            Memory::AgentState(m) => m.common.embedding = Some(embedding),
        }
    }

    /// Set the primary text content of this memory: a fact's statement, and
    /// for other kinds their primary text field (description, content, ...).
    pub fn set_text_content(&mut self, content: &str)
        ensures
            text_replaced(*old(self), *final(self), content@),
            memory_type_of(*final(self)) == memory_type_of(*old(self)),
            common_of(*final(self)) == common_of(*old(self)),
    {
        match self {
            Memory::Semantic(s) => match &mut s.content {
                SemanticContent::Fact(f) => f.statement = owned(content),
                SemanticContent::Preference(p) => p.preference = owned(content),
                SemanticContent::Concept(c) => c.definition = owned(content),
                SemanticContent::Entity(e) => e.description = Some(owned(content)),
            },
            Memory::Episodic(e) => match &mut e.content {
                EpisodicContent::Conversation(c) => c.summary = Some(owned(content)),
                EpisodicContent::Event(ev) => ev.description = owned(content),
                EpisodicContent::Observation(o) => o.content = owned(content),
            },
            Memory::Procedural(p) => match &mut p.content {
                ProceduralContent::Workflow(w) => w.description = owned(content),
                ProceduralContent::Skill(sk) => sk.description = owned(content),
                ProceduralContent::Pattern(pat) => pat.description = owned(content),
                ProceduralContent::Case(c) => c.outcome = owned(content),
            },
            Memory::AgentState(a) => match &mut a.content {
                AgentStateContent::Goal(g) => g.description = owned(content),
                AgentStateContent::Task(t) => t.description = Some(owned(content)),
                AgentStateContent::WorkingMemory(w) => w.content = owned(content),
            },
        }
    }
}

/// Setting the text of a memory keeps its identity, type and common fields,
/// and setting it twice is the same as setting it once to the second text.
pub proof fn lemma_set_text_keeps_identity(m: Memory, once: Memory, twice: Memory, t1: Seq<char>, t2: Seq<char>)
    requires
        text_replaced(m, once, t1),
        text_replaced(once, twice, t2),
    ensures
        memory_type_of(twice) == memory_type_of(m),
        common_of(twice) == common_of(m),
        common_of(twice).id == common_of(m).id,
        text_replaced(m, twice, t2),
{
}

/// The category of a memory's type is the kind of the memory.
pub proof fn lemma_type_category_is_kind(m: Memory)
    ensures
        (category_of(memory_type_of(m)) == MemoryCategory::Episodic) == (m is Episodic),
        (category_of(memory_type_of(m)) == MemoryCategory::Semantic) == (m is Semantic),
        (category_of(memory_type_of(m)) == MemoryCategory::Procedural) == (m is Procedural),
        (category_of(memory_type_of(m)) == MemoryCategory::AgentState) == (m is AgentState),
{
}

} // verus!
