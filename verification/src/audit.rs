//! The audit trail: a bounded log of memory decisions that keeps the most
//! recent entries, records only what the audit configuration asks for, and
//! answers queries by memory, by entry type and by time range.
//!
//! Scores that are real numbers (salience, novelty, similarity, confidence)
//! are held as the IEEE-754 bit patterns of their `f64` values.

use vstd::prelude::*;

use crate::clock::now_nanos;
use crate::config::AuditConfig;
use crate::ids::{fresh_v4, is_v4, AgentId, MemoryId};
use crate::memory_type::MemoryType;
use crate::text::{opt_text, owned};

verus! {

/// Types of audit entries.
#[derive(Debug, Clone, Copy, PartialEq, Eq, Structural)]
pub enum AuditEntryType {
    /// Decision to store a memory
    StorageDecision,
    /// Decision about retrieval
    RetrievalDecision,
    /// Memory was rejected
    Rejection,
    /// Memories were merged
    Merge,
    /// Consolidation occurred
    Consolidation,
    /// Decay was applied
    Decay,
    /// Contradiction was detected
    ContradictionDetected,
    /// Access was recorded
    Access,
    /// Memory was deleted
    Deletion,
    /// Configuration change
    ConfigChange,
}

/// Outcome of a decision.
#[derive(Debug, Clone)]
pub enum DecisionOutcome {
    /// Memory was stored
    Stored,
    /// Memory was rejected
    Rejected { reason: String },
    /// Memories were merged
    Merged { source_id: MemoryId, target_id: MemoryId },
    /// Retrieval returned results
    Retrieved { count: usize },
    /// Retrieval was gated (skipped)
    Gated { reason: String },
    /// Consolidation completed
    Consolidated { source_count: usize },
    /// Decay was applied (confidences as `f64` bit patterns)
    Decayed { old_confidence: u64, new_confidence: u64 },
    /// Contradiction found
    ContradictionFound { memory1: MemoryId, memory2: MemoryId },
    /// Custom outcome
    Custom { description: String },
}

impl DecisionOutcome {
    /// An equal copy of this outcome.
    pub fn duplicate(&self) -> (r: Self)
        ensures
            r == *self,
    {
        match self {
            DecisionOutcome::Stored => DecisionOutcome::Stored,
            DecisionOutcome::Rejected { reason } => DecisionOutcome::Rejected { reason: reason.clone() },
            DecisionOutcome::Merged { source_id, target_id } => DecisionOutcome::Merged {
                source_id: *source_id,
                target_id: *target_id,
            },
            DecisionOutcome::Retrieved { count } => DecisionOutcome::Retrieved { count: *count },
            DecisionOutcome::Gated { reason } => DecisionOutcome::Gated { reason: reason.clone() },
            DecisionOutcome::Consolidated { source_count } => DecisionOutcome::Consolidated {
                source_count: *source_count,
            },
            DecisionOutcome::Decayed { old_confidence, new_confidence } => DecisionOutcome::Decayed {
                old_confidence: *old_confidence,
                new_confidence: *new_confidence,
            },
            DecisionOutcome::ContradictionFound { memory1, memory2 } => {
                DecisionOutcome::ContradictionFound { memory1: *memory1, memory2: *memory2 }
            },
            DecisionOutcome::Custom { description } => DecisionOutcome::Custom {
                description: description.clone(),
            },
        }
    }
}

/// An equal copy of an optional string.
fn copy_opt_string(o: &Option<String>) -> (r: Option<String>)
    ensures
        r == *o,
{
    match o {
        Some(s) => Some(s.clone()),
        None => None,
    }
}

/// An equal copy of a list of identifiers.
fn copy_ids(v: &Vec<MemoryId>) -> (r: Vec<MemoryId>)
    ensures
        r@ == v@,
{
    let mut r: Vec<MemoryId> = Vec::new();
    let mut i: usize = 0;
    while i < v.len()
        invariant
            i <= v@.len(),
            r@ == v@.take(i as int),
        decreases v.len() - i,
    {
        r.push(v[i]);
        assert(v@.take(i as int + 1) =~= v@.take(i as int).push(v@[i as int]));
        i += 1;
    }
    assert(v@.take(v@.len() as int) =~= v@);
    r
}

/// Context about a decision.
#[derive(Debug, Clone)]
pub struct DecisionContext {
    /// Query that triggered this (for retrieval)
    pub query: Option<String>,
    /// Salience score (`f64` bit pattern)
    pub salience_score: Option<u64>,
    /// Novelty score (`f64` bit pattern)
    pub novelty_score: Option<u64>,
    /// Similarity to existing memories (`f64` bit pattern)
    pub max_similarity: Option<u64>,
    /// Similar memory IDs
    pub similar_memories: Vec<MemoryId>,
    /// Confidence at time of decision (`f64` bit pattern)
    pub confidence: Option<u64>,
    /// Budget status
    pub budget_remaining: Option<usize>,
    /// Policy that made the decision
    pub policy: Option<String>,
    /// Additional notes
    pub notes: Option<String>,
}

/// A context that records nothing.
pub open spec fn empty_context(c: DecisionContext) -> bool {
    &&& c.query is None
    &&& c.salience_score is None
    &&& c.novelty_score is None
    &&& c.max_similarity is None
    &&& c.similar_memories@.len() == 0
    &&& c.confidence is None
    &&& c.budget_remaining is None
    &&& c.policy is None
    &&& c.notes is None
}

impl Default for DecisionContext {
    fn default() -> (r: Self)
        ensures
            empty_context(r),
    {
        DecisionContext {
            query: None,
            salience_score: None,
            novelty_score: None,
            max_similarity: None,
            similar_memories: Vec::new(),
            confidence: None,
            budget_remaining: None,
            policy: None,
            notes: None,
        }
    }
}

impl DecisionContext {
    /// Create new context.
    pub fn new() -> (r: Self)
        ensures
            empty_context(r),
    {
        Self::default()
    }

    /// Set salience score (`f64` bit pattern).
    pub fn with_salience(self, score: u64) -> (r: Self)
        ensures
            r == (DecisionContext { salience_score: Some(score), ..self }),
    {
        DecisionContext { salience_score: Some(score), ..self }
    }

    /// Set novelty score (`f64` bit pattern).
    pub fn with_novelty(self, score: u64) -> (r: Self)
        ensures
            r == (DecisionContext { novelty_score: Some(score), ..self }),
    {
        DecisionContext { novelty_score: Some(score), ..self }
    }

    /// Set max similarity (`f64` bit pattern).
    pub fn with_max_similarity(self, similarity: u64) -> (r: Self)
        ensures
            r == (DecisionContext { max_similarity: Some(similarity), ..self }),
    {
        DecisionContext { max_similarity: Some(similarity), ..self }
    }

    /// Add similar memory.
    pub fn with_similar_memory(self, id: MemoryId) -> (r: Self)
        ensures
            r == (DecisionContext { similar_memories: r.similar_memories, ..self }),
            r.similar_memories@ == self.similar_memories@.push(id),
    {
        let mut s = self;
        s.similar_memories.push(id);
        s
    }

    /// Set policy.
    pub fn with_policy(self, policy: &str) -> (r: Self)
        ensures
            r == (DecisionContext { policy: r.policy, ..self }),
            opt_text(r.policy) == Some(policy@),
    {
        DecisionContext { policy: Some(owned(policy)), ..self }
    }

    /// Set notes.
    pub fn with_notes(self, notes: &str) -> (r: Self)
        ensures
            r == (DecisionContext { notes: r.notes, ..self }),
            opt_text(r.notes) == Some(notes@),
    {
        DecisionContext { notes: Some(owned(notes)), ..self }
    }

    /// A copy of this context recording the same things.
    pub fn duplicate(&self) -> (r: Self)
        ensures
            same_context(r, *self),
    {
        let similar_memories = copy_ids(&self.similar_memories);
        let r = DecisionContext {
            query: copy_opt_string(&self.query),
            salience_score: self.salience_score,
            novelty_score: self.novelty_score,
            max_similarity: self.max_similarity,
            similar_memories,
            confidence: self.confidence,
            budget_remaining: self.budget_remaining,
            policy: copy_opt_string(&self.policy),
            notes: copy_opt_string(&self.notes),
        };
        assert(r.similar_memories@ =~= self.similar_memories@);
        r
    }
}

/// Two contexts record the same things.
pub open spec fn same_context(a: DecisionContext, b: DecisionContext) -> bool {
    &&& a.query == b.query
    &&& a.salience_score == b.salience_score
    &&& a.novelty_score == b.novelty_score
    &&& a.max_similarity == b.max_similarity
    &&& a.similar_memories@ == b.similar_memories@
    &&& a.confidence == b.confidence
    &&& a.budget_remaining == b.budget_remaining
    &&& a.policy == b.policy
    &&& a.notes == b.notes
}

/// Two entries record the same things.
pub open spec fn same_entry(a: AuditEntry, b: AuditEntry) -> bool {
    &&& a.id == b.id
    &&& a.timestamp_ns == b.timestamp_ns
    &&& a.entry_type == b.entry_type
    &&& a.memory_id == b.memory_id
    &&& a.memory_type == b.memory_type
    &&& a.agent_id == b.agent_id
    &&& a.outcome == b.outcome
    &&& same_context(a.context, b.context)
    &&& a.duration_ms == b.duration_ms
    &&& a.metadata == b.metadata
}

/// A single audit log entry.
#[derive(Debug, Clone)]
pub struct AuditEntry {
    /// Unique ID for this entry (the 128-bit value of a random UUID)
    pub id: u128,
    /// When this occurred, in nanoseconds since the Unix epoch
    pub timestamp_ns: i128,
    /// Type of entry
    pub entry_type: AuditEntryType,
    /// Related memory ID (if applicable)
    pub memory_id: Option<MemoryId>,
    /// Memory type (if applicable)
    pub memory_type: Option<MemoryType>,
    /// Agent that triggered this
    pub agent_id: Option<AgentId>,
    /// The decision outcome
    pub outcome: DecisionOutcome,
    /// Context about the decision
    pub context: DecisionContext,
    /// Processing time in milliseconds
    pub duration_ms: Option<u64>,
    /// Additional metadata as JSON text
    pub metadata: Option<String>,
}

/// A freshly made entry of the given type and outcome, with nothing else
/// recorded.
pub open spec fn fresh_entry(e: AuditEntry, entry_type: AuditEntryType, outcome: DecisionOutcome) -> bool {
    &&& e.entry_type == entry_type
    &&& e.outcome == outcome
    &&& e.memory_id is None
    &&& e.memory_type is None
    &&& e.agent_id is None
    &&& empty_context(e.context)
    &&& e.duration_ms is None
    &&& e.metadata is None
}

impl AuditEntry {
    /// Create a new audit entry with a fresh random ID, stamped now.
    pub fn new(entry_type: AuditEntryType, outcome: DecisionOutcome) -> (r: Self)
        ensures
            fresh_entry(r, entry_type, outcome),
            is_v4(r.id),
            r.timestamp_ns >= 0,
    {
        AuditEntry {
            id: fresh_v4(),
            timestamp_ns: now_nanos(),
            entry_type,
            memory_id: None,
            memory_type: None,
            agent_id: None,
            outcome,
            context: DecisionContext::default(),
            duration_ms: None,
            metadata: None,
        }
    }

    /// Set memory ID.
    pub fn with_memory_id(self, id: MemoryId) -> (r: Self)
        ensures
            r == (AuditEntry { memory_id: Some(id), ..self }),
    {
        AuditEntry { memory_id: Some(id), ..self }
    }

    /// Set memory type.
    pub fn with_memory_type(self, mt: MemoryType) -> (r: Self)
        ensures
            r == (AuditEntry { memory_type: Some(mt), ..self }),
    {
        AuditEntry { memory_type: Some(mt), ..self }
    }

    /// Set agent ID.
    pub fn with_agent_id(self, id: AgentId) -> (r: Self)
        ensures
            r == (AuditEntry { agent_id: Some(id), ..self }),
    {
        AuditEntry { agent_id: Some(id), ..self }
    }

    /// Set context.
    pub fn with_context(self, context: DecisionContext) -> (r: Self)
        ensures
            r == (AuditEntry { context, ..self }),
    {
        AuditEntry { context, ..self }
    }

    /// Set duration.
    pub fn with_duration_ms(self, ms: u64) -> (r: Self)
        ensures
            r == (AuditEntry { duration_ms: Some(ms), ..self }),
    {
        AuditEntry { duration_ms: Some(ms), ..self }
    }

    /// Set metadata (JSON text).
    pub fn with_metadata(self, metadata: &str) -> (r: Self)
        ensures
            r == (AuditEntry { metadata: r.metadata, ..self }),
            opt_text(r.metadata) == Some(metadata@),
    {
        AuditEntry { metadata: Some(owned(metadata)), ..self }
    }

    /// Create a storage decision entry.
    pub fn storage_decision(memory_id: MemoryId, memory_type: MemoryType, outcome: DecisionOutcome) -> (r: Self)
        ensures
            r.entry_type == AuditEntryType::StorageDecision,
            r.outcome == outcome,
            r.memory_id == Some(memory_id),
            r.memory_type == Some(memory_type),
            r.agent_id is None,
            empty_context(r.context),
            r.duration_ms is None,
            r.metadata is None,
    {
        Self::new(AuditEntryType::StorageDecision, outcome).with_memory_id(memory_id).with_memory_type(
            memory_type,
        )
    }

    /// Create a retrieval decision entry recording the query.
    pub fn retrieval_decision(query: &str, results_count: usize) -> (r: Self)
        ensures
            r.entry_type == AuditEntryType::RetrievalDecision,
            r.outcome == (DecisionOutcome::Retrieved { count: results_count }),
            r.memory_id is None,
            opt_text(r.context.query) == Some(query@),
            empty_context(DecisionContext { query: None, ..r.context }),
            r.memory_type is None,
            r.agent_id is None,
            r.duration_ms is None,
            r.metadata is None,
    {
        let context = DecisionContext { query: Some(owned(query)), ..DecisionContext::default() };
        Self::new(AuditEntryType::RetrievalDecision, DecisionOutcome::Retrieved { count: results_count })
            .with_context(context)
    }

    /// Create a rejection entry.
    pub fn rejection(memory_id: MemoryId, reason: &str) -> (r: Self)
        ensures
            r.entry_type == AuditEntryType::Rejection,
            r.outcome matches DecisionOutcome::Rejected { reason: why } && why@ == reason@,
            r.memory_id == Some(memory_id),
            empty_context(r.context),
            r.memory_type is None,
            r.agent_id is None,
            r.duration_ms is None,
            r.metadata is None,
    {
        Self::new(AuditEntryType::Rejection, DecisionOutcome::Rejected { reason: owned(reason) })
            .with_memory_id(memory_id)
    }

    /// Create a merge entry.
    pub fn merge(original_id: MemoryId, merged_into: MemoryId) -> (r: Self)
        ensures
            r.entry_type == AuditEntryType::Merge,
            r.outcome == (DecisionOutcome::Merged { source_id: original_id, target_id: merged_into }),
            r.memory_id == Some(original_id),
            empty_context(r.context),
            r.memory_type is None,
            r.agent_id is None,
            r.duration_ms is None,
            r.metadata is None,
    {
        Self::new(
            AuditEntryType::Merge,
            DecisionOutcome::Merged { source_id: original_id, target_id: merged_into },
        ).with_memory_id(original_id)
    }

    /// A copy of this entry recording the same things.
    pub fn duplicate(&self) -> (r: Self)
        ensures
            same_entry(r, *self),
    {
        AuditEntry {
            id: self.id,
            timestamp_ns: self.timestamp_ns,
            entry_type: self.entry_type,
            memory_id: self.memory_id,
            memory_type: self.memory_type,
            agent_id: self.agent_id,
            outcome: self.outcome.duplicate(),
            context: self.context.duplicate(),
            duration_ms: self.duration_ms,
            metadata: copy_opt_string(&self.metadata),
        }
    }
}

/// The entries a log keeps out of `s`: the most recent `max` of them.
pub open spec fn most_recent(s: Seq<AuditEntry>, max: nat) -> Seq<AuditEntry> {
    if s.len() > max {
        s.skip(s.len() - max)
    } else {
        s
    }
}

/// The entries of `s` about the memory `id`, in order.
pub open spec fn about_memory(s: Seq<AuditEntry>, id: MemoryId) -> Seq<AuditEntry>
    decreases s.len(),
{
    if s.len() == 0 {
        Seq::empty()
    } else if s.last().memory_id == Some(id) {
        about_memory(s.drop_last(), id).push(s.last())
    } else {
        about_memory(s.drop_last(), id)
    }
}

/// The entries of `s` of the given type, in order.
pub open spec fn of_type(s: Seq<AuditEntry>, t: AuditEntryType) -> Seq<AuditEntry>
    decreases s.len(),
{
    if s.len() == 0 {
        Seq::empty()
    } else if s.last().entry_type == t {
        of_type(s.drop_last(), t).push(s.last())
    } else {
        of_type(s.drop_last(), t)
    }
}

/// The entries of `s` stamped within `[start, end]`, in order.
pub open spec fn within(s: Seq<AuditEntry>, start: i128, end: i128) -> Seq<AuditEntry>
    decreases s.len(),
{
    if s.len() == 0 {
        Seq::empty()
    } else if start <= s.last().timestamp_ns <= end {
        within(s.drop_last(), start, end).push(s.last())
    } else {
        within(s.drop_last(), start, end)
    }
}

/// `a` holds copies of the entries of `b`, in the same order.
pub open spec fn same_entries(a: Seq<AuditEntry>, b: Seq<AuditEntry>) -> bool {
    &&& a.len() == b.len()
    &&& forall|i: int| 0 <= i < a.len() ==> same_entry(#[trigger] a[i], b[i])
}

/// Which entry types a configuration records through `log_storage`,
/// `log_retrieval` and `log_rejection`: each needs auditing enabled and its
/// own switch on.
pub open spec fn records_storage(c: AuditConfig) -> bool {
    c.enabled && c.log_storage
}

/// Retrieval decisions are recorded.
pub open spec fn records_retrieval(c: AuditConfig) -> bool {
    c.enabled && c.log_retrieval
}

/// Rejections are recorded.
pub open spec fn records_rejections(c: AuditConfig) -> bool {
    c.enabled && c.log_rejections
}

/// The default number of entries a log keeps.
pub const DEFAULT_MAX_ENTRIES: usize = 10000;

/// Audit log for tracking all memory decisions.
pub struct AuditLog {
    entries: std::collections::VecDeque<AuditEntry>,
    config: AuditConfig,
    max_entries: usize,
}

impl AuditLog {
    #[verifier::type_invariant]
    spec fn within_capacity(self) -> bool {
        self.entries@.len() <= self.max_entries
    }

    /// The entries, oldest first.
    pub closed spec fn view(&self) -> Seq<AuditEntry> {
        self.entries@
    }

    /// The configuration deciding what is recorded.
    pub closed spec fn spec_config(&self) -> AuditConfig {
        self.config
    }

    /// The most entries this log keeps.
    pub closed spec fn capacity(&self) -> nat {
        self.max_entries as nat
    }

    /// Create a new audit log keeping the default number of entries.
    pub fn new(config: AuditConfig) -> (r: Self)
        ensures
            r.view().len() == 0,
            r.spec_config() == config,
            r.capacity() == DEFAULT_MAX_ENTRIES,
    {
        AuditLog { entries: std::collections::VecDeque::new(), config, max_entries: DEFAULT_MAX_ENTRIES }
    }

    /// Create with custom max entries.
    pub fn with_max_entries(config: AuditConfig, max_entries: usize) -> (r: Self)
        ensures
            r.view().len() == 0,
            r.spec_config() == config,
            r.capacity() == max_entries,
    {
        AuditLog { entries: std::collections::VecDeque::new(), config, max_entries }
    }

    /// Append an entry, dropping the oldest ones beyond capacity.
    fn add_entry(&mut self, entry: AuditEntry)
        ensures
            final(self).view() == most_recent(old(self).view().push(entry), old(self).capacity()),
            final(self).spec_config() == old(self).spec_config(),
            final(self).capacity() == old(self).capacity(),
    {
        broadcast use vstd::std_specs::vecdeque::group_vec_dequeue_axioms;
        proof {
            use_type_invariant(&*self);
        }
        let mut entries = std::collections::VecDeque::new();
        std::mem::swap(&mut entries, &mut self.entries);
        let ghost grown = entries@.push(entry);
        entries.push_back(entry);
        while entries.len() > self.max_entries
            invariant
                entries@.len() <= grown.len(),
                grown.len() <= self.max_entries ==> entries@.len() == grown.len(),
                grown.len() > self.max_entries ==> entries@.len() >= self.max_entries,
                entries@ == grown.skip(grown.len() - entries@.len()),
                grown.len() <= old(self).view().len() + 1,
                old(self).view().len() <= self.max_entries,
            decreases entries@.len(),
        {
            let ghost before = entries@;
            entries.pop_front();
            assert(entries@ =~= grown.skip(grown.len() - entries@.len()));
        }
        proof {
            if grown.len() <= self.max_entries {
                assert(entries@ =~= grown);
            }
        }
        self.entries = entries;
    }

    /// Log a storage decision, when storage decisions are recorded.
    pub fn log_storage(&mut self, entry: AuditEntry)
        ensures
            final(self).view() == (if records_storage(old(self).spec_config()) {
                most_recent(old(self).view().push(entry), old(self).capacity())
            } else {
                old(self).view()
            }),
            final(self).spec_config() == old(self).spec_config(),
            final(self).capacity() == old(self).capacity(),
    {
        if !self.config.enabled || !self.config.log_storage {
            return;
        }
        self.add_entry(entry);
    }

    /// Log a retrieval decision, when retrieval decisions are recorded.
    pub fn log_retrieval(&mut self, entry: AuditEntry)
        ensures
            final(self).view() == (if records_retrieval(old(self).spec_config()) {
                most_recent(old(self).view().push(entry), old(self).capacity())
            } else {
                old(self).view()
            }),
            final(self).spec_config() == old(self).spec_config(),
            final(self).capacity() == old(self).capacity(),
    {
        if !self.config.enabled || !self.config.log_retrieval {
            return;
        }
        self.add_entry(entry);
    }

    /// Log a rejection, when rejections are recorded.
    pub fn log_rejection(&mut self, entry: AuditEntry)
        ensures
            final(self).view() == (if records_rejections(old(self).spec_config()) {
                most_recent(old(self).view().push(entry), old(self).capacity())
            } else {
                old(self).view()
            }),
            final(self).spec_config() == old(self).spec_config(),
            final(self).capacity() == old(self).capacity(),
    {
        if !self.config.enabled || !self.config.log_rejections {
            return;
        }
        self.add_entry(entry);
    }

    /// Log any entry (respects the enabled flag only).
    pub fn log(&mut self, entry: AuditEntry)
        ensures
            final(self).view() == (if old(self).spec_config().enabled {
                most_recent(old(self).view().push(entry), old(self).capacity())
            } else {
                old(self).view()
            }),
            final(self).spec_config() == old(self).spec_config(),
            final(self).capacity() == old(self).capacity(),
    {
        if !self.config.enabled {
            return;
        }
        self.add_entry(entry);
    }

    /// Get the most recent `count` entries, newest first.
    pub fn recent(&self, count: usize) -> (r: Vec<AuditEntry>)
        ensures
            same_entries(
                r@,
                self.view().reverse().take(
                    if count <= self.view().len() {
                        count as int
                    } else {
                        self.view().len() as int
                    },
                ),
            ),
            r@.len() == (if count <= self.view().len() {
                count as int
            } else {
                self.view().len() as int
            }),
            forall|i: int|
                0 <= i < r@.len() ==> same_entry(
                    #[trigger] r@[i],
                    self.view()[self.view().len() - 1 - i],
                ),
    {
        broadcast use vstd::std_specs::vecdeque::group_vec_dequeue_axioms;
        let n = self.entries.len();
        let want = if count <= n {
            count
        } else {
            n
        };
        let ghost rev = self.view().reverse();
        let mut r: Vec<AuditEntry> = Vec::new();
        let mut i: usize = 0;
        while i < want
            invariant
                want <= n == self.view().len(),
                rev == self.view().reverse(),
                i <= want,
                same_entries(r@, rev.take(i as int)),
            decreases want - i,
        {
            let e = self.entries[n - 1 - i].duplicate();
            r.push(e);
            assert(rev[i as int] == self.view()[n - 1 - i]);
            i += 1;
        }
        r
    }

    /// Get entries for a specific memory, oldest first.
    pub fn for_memory(&self, memory_id: &MemoryId) -> (r: Vec<AuditEntry>)
        ensures
            same_entries(r@, about_memory(self.view(), *memory_id)),
            forall|i: int| 0 <= i < r@.len() ==> (#[trigger] r@[i]).memory_id == Some(*memory_id),
            r@.len() == self.view().filter(|e: AuditEntry| e.memory_id == Some(*memory_id)).len(),
    {
        broadcast use vstd::std_specs::vecdeque::group_vec_dequeue_axioms;
        let mut r: Vec<AuditEntry> = Vec::new();
        let mut i: usize = 0;
        while i < self.entries.len()
            invariant
                i <= self.view().len(),
                same_entries(r@, about_memory(self.view().take(i as int), *memory_id)),
            decreases self.view().len() - i,
        {
            let e = &self.entries[i];
            assert(self.view().take(i as int + 1).drop_last() =~= self.view().take(i as int));
            let matches = match e.memory_id {
                Some(m) => m.0 == memory_id.0,
                None => false,
            };
            if matches {
                r.push(e.duplicate());
            }
            i += 1;
        }
        assert(self.view().take(self.view().len() as int) =~= self.view());
        proof {
            lemma_memory_query_selects(self.view(), *memory_id);
        }
        r
    }

    /// Get entries by type, oldest first.
    pub fn by_type(&self, entry_type: AuditEntryType) -> (r: Vec<AuditEntry>)
        ensures
            same_entries(r@, of_type(self.view(), entry_type)),
            forall|i: int| 0 <= i < r@.len() ==> (#[trigger] r@[i]).entry_type == entry_type,
            r@.len() == self.view().filter(|e: AuditEntry| e.entry_type == entry_type).len(),
    {
        broadcast use vstd::std_specs::vecdeque::group_vec_dequeue_axioms;
        let mut r: Vec<AuditEntry> = Vec::new();
        let mut i: usize = 0;
        while i < self.entries.len()
            invariant
                i <= self.view().len(),
                same_entries(r@, of_type(self.view().take(i as int), entry_type)),
            decreases self.view().len() - i,
        {
            let e = &self.entries[i];
            assert(self.view().take(i as int + 1).drop_last() =~= self.view().take(i as int));
            if e.entry_type == entry_type {
                r.push(e.duplicate());
            }
            i += 1;
        }
        assert(self.view().take(self.view().len() as int) =~= self.view());
        proof {
            lemma_type_query_selects(self.view(), entry_type);
        }
        r
    }

    /// Get entries stamped within `[start, end]` (nanoseconds since the Unix
    /// epoch), oldest first.
    pub fn in_range(&self, start: i128, end: i128) -> (r: Vec<AuditEntry>)
        ensures
            same_entries(r@, within(self.view(), start, end)),
            forall|i: int| 0 <= i < r@.len() ==> start <= (#[trigger] r@[i]).timestamp_ns <= end,
            r@.len() == self.view().filter(|e: AuditEntry| start <= e.timestamp_ns <= end).len(),
    {
        broadcast use vstd::std_specs::vecdeque::group_vec_dequeue_axioms;
        let mut r: Vec<AuditEntry> = Vec::new();
        let mut i: usize = 0;
        while i < self.entries.len()
            invariant
                i <= self.view().len(),
                same_entries(r@, within(self.view().take(i as int), start, end)),
            decreases self.view().len() - i,
        {
            let e = &self.entries[i];
            assert(self.view().take(i as int + 1).drop_last() =~= self.view().take(i as int));
            if e.timestamp_ns >= start && e.timestamp_ns <= end {
                r.push(e.duplicate());
            }
            i += 1;
        }
        assert(self.view().take(self.view().len() as int) =~= self.view());
        proof {
            lemma_range_query_selects(self.view(), start, end);
        }
        r
    }

    /// Get all entries, oldest first.
    pub fn all(&self) -> (r: Vec<AuditEntry>)
        ensures
            same_entries(r@, self.view()),
    {
        broadcast use vstd::std_specs::vecdeque::group_vec_dequeue_axioms;
        let mut r: Vec<AuditEntry> = Vec::new();
        let mut i: usize = 0;
        while i < self.entries.len()
            invariant
                i <= self.view().len(),
                same_entries(r@, self.view().take(i as int)),
            decreases self.view().len() - i,
        {
            r.push(self.entries[i].duplicate());
            i += 1;
        }
        assert(self.view().take(self.view().len() as int) =~= self.view());
        r
    }

    /// Get entry count.
    pub fn len(&self) -> (r: usize)
        ensures
            r == self.view().len(),
            r <= self.capacity(),
    {
        broadcast use vstd::std_specs::vecdeque::group_vec_dequeue_axioms;
        proof {
            use_type_invariant(self);
        }
        self.entries.len()
    }

    /// Check if empty.
    pub fn is_empty(&self) -> (r: bool)
        ensures
            r == (self.view().len() == 0),
    {
        broadcast use vstd::std_specs::vecdeque::group_vec_dequeue_axioms;
        self.entries.len() == 0
    }

    /// Clear all entries.
    pub fn clear(&mut self)
        ensures
            final(self).view().len() == 0,
            final(self).spec_config() == old(self).spec_config(),
            final(self).capacity() == old(self).capacity(),
    {
        self.entries = std::collections::VecDeque::new();
    }
}

impl Default for AuditLog {
    fn default() -> (r: Self)
        ensures
            r.view().len() == 0,
            r.capacity() == DEFAULT_MAX_ENTRIES,
            r.spec_config() == (AuditConfig {
                enabled: true,
                retention_days: 30,
                log_storage: true,
                log_retrieval: true,
                log_rejections: true,
            }),
    {
        Self::new(AuditConfig::default())
    }
}

/// Recording keeps the newest entries: after an entry is recorded, it is the
/// last one held (when the log keeps any), and the entries before it are the
/// most recent ones held before, in the same order.
pub proof fn lemma_recording_keeps_newest(before: Seq<AuditEntry>, entry: AuditEntry, capacity: nat)
    requires
        capacity > 0,
    ensures
        most_recent(before.push(entry), capacity).last() == entry,
        most_recent(before.push(entry), capacity).drop_last() == most_recent(before, (capacity - 1) as nat),
        most_recent(before.push(entry), capacity).len() <= capacity,
{
    let g = before.push(entry);
    if g.len() > capacity {
        assert(g.skip(g.len() - capacity).drop_last() =~= before.skip(before.len() - (capacity - 1)));
    } else {
        assert(g.drop_last() =~= before);
    }
}

proof fn lemma_of_type_filters(s: Seq<AuditEntry>, t: AuditEntryType)
    ensures
        of_type(s, t) == s.filter(|e: AuditEntry| e.entry_type == t),
    decreases s.len(),
{
    reveal(Seq::filter);
    if s.len() > 0 {
        lemma_of_type_filters(s.drop_last(), t);
    }
}

proof fn lemma_about_memory_filters(s: Seq<AuditEntry>, id: MemoryId)
    ensures
        about_memory(s, id) == s.filter(|e: AuditEntry| e.memory_id == Some(id)),
    decreases s.len(),
{
    reveal(Seq::filter);
    if s.len() > 0 {
        lemma_about_memory_filters(s.drop_last(), id);
    }
}

proof fn lemma_within_filters(s: Seq<AuditEntry>, start: i128, end: i128)
    ensures
        within(s, start, end) == s.filter(|e: AuditEntry| start <= e.timestamp_ns <= end),
    decreases s.len(),
{
    reveal(Seq::filter);
    if s.len() > 0 {
        lemma_within_filters(s.drop_last(), start, end);
    }
}

/// The type query keeps exactly the logged entries of the asked type, in the
/// order they were logged: every entry it gives has that type, and every
/// logged entry of that type is among them.
pub proof fn lemma_type_query_selects(s: Seq<AuditEntry>, t: AuditEntryType)
    ensures
        forall|i: int| 0 <= i < of_type(s, t).len() ==> (#[trigger] of_type(s, t)[i]).entry_type == t,
        forall|i: int| 0 <= i < s.len() && s[i].entry_type == t ==> of_type(s, t).contains(#[trigger] s[i]),
        of_type(s, t) == s.filter(|e: AuditEntry| e.entry_type == t),
{
    lemma_of_type_filters(s, t);
    s.filter_lemma(|e: AuditEntry| e.entry_type == t);
}

/// The memory query keeps exactly the logged entries about the asked memory,
/// in the order they were logged.
pub proof fn lemma_memory_query_selects(s: Seq<AuditEntry>, id: MemoryId)
    ensures
        forall|i: int|
            0 <= i < about_memory(s, id).len() ==> (#[trigger] about_memory(s, id)[i]).memory_id == Some(
                id,
            ),
        forall|i: int|
            0 <= i < s.len() && s[i].memory_id == Some(id) ==> about_memory(s, id).contains(
                #[trigger] s[i],
            ),
        about_memory(s, id) == s.filter(|e: AuditEntry| e.memory_id == Some(id)),
{
    lemma_about_memory_filters(s, id);
    s.filter_lemma(|e: AuditEntry| e.memory_id == Some(id));
}

/// The time-range query keeps exactly the logged entries stamped within the
/// range, ends included, in the order they were logged.
pub proof fn lemma_range_query_selects(s: Seq<AuditEntry>, start: i128, end: i128)
    ensures
        forall|i: int|
            0 <= i < within(s, start, end).len() ==> start <= (#[trigger] within(
                s,
                start,
                end,
            )[i]).timestamp_ns <= end,
        forall|i: int|
            0 <= i < s.len() && start <= s[i].timestamp_ns <= end ==> within(s, start, end).contains(
                #[trigger] s[i],
            ),
        within(s, start, end) == s.filter(|e: AuditEntry| start <= e.timestamp_ns <= end),
{
    lemma_within_filters(s, start, end);
    s.filter_lemma(|e: AuditEntry| start <= e.timestamp_ns <= end);
}

} // verus!
