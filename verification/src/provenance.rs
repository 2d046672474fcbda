//! Where a memory came from: its source, the memories it was derived from and
//! how, the agent it was recorded for, and how often it has been accessed.
//! Times are milliseconds since the Unix epoch.

use vstd::prelude::*;

use crate::clock::now_millis;
use crate::ids::{AgentId, MemoryId};
use crate::text::owned;

verus! {

/// The origin of a memory.
#[derive(Debug, Clone)]
pub enum Source {
    /// Given directly by a user, through the named input channel
    UserInput { input: String },
    /// Produced by a process of an agent
    AgentGenerated { process: String, context: Option<String> },
    /// Consolidated from other memories by a method
    Consolidated { source_count: usize, method: String },
}

impl Source {
    /// A source of user input through `input`.
    pub fn user_input(input: &str) -> (r: Source)
        ensures
            r matches Source::UserInput { input: i } && i@ == input@,
    {
        Source::UserInput { input: owned(input) }
    }
}

/// How a memory was derived from others.
#[derive(Debug, Clone, Copy, PartialEq, Eq, Structural)]
pub enum DerivationType {
    /// Distilled from episodic memories into a semantic one
    Distillation,
}

/// One derivation step: the memories a memory was derived from, and how.
#[derive(Debug, Clone)]
pub struct Derivation {
    /// The memories derived from
    pub source_ids: Vec<MemoryId>,
    /// How they were used
    pub derivation_type: DerivationType,
}

impl Derivation {
    /// A derivation from `source_ids` of the given type.
    pub fn new(source_ids: Vec<MemoryId>, derivation_type: DerivationType) -> (r: Self)
        ensures
            r.source_ids@ == source_ids@,
            r.derivation_type == derivation_type,
    {
        Derivation { source_ids, derivation_type }
    }
}

/// The provenance of a memory.
#[derive(Debug, Clone)]
pub struct Provenance {
    /// Where the memory came from
    pub source: Source,
    /// The derivations that produced it; empty for a direct memory
    pub derived_from: Vec<Derivation>,
    /// The agent it was recorded for
    pub agent_id: AgentId,
    /// When it was recorded
    pub created_at_ms: i64,
    /// When it was last accessed
    pub last_accessed_ms: i64,
    /// How many times it has been accessed
    pub access_count: u64,
}

impl Provenance {
    /// The provenance of a memory taken directly from `source`, recorded now.
    pub fn new_direct(source: Source, agent_id: AgentId) -> (r: Self)
        ensures
            r.source == source,
            r.derived_from@.len() == 0,
            r.agent_id == agent_id,
            r.created_at_ms >= 0,
            r.last_accessed_ms == r.created_at_ms,
            r.access_count == 0,
    {
        let now = now_millis();
        Provenance {
            source,
            derived_from: Vec::new(),
            agent_id,
            created_at_ms: now,
            last_accessed_ms: now,
            access_count: 0,
        }
    }

    /// The provenance of a memory derived from others by `derivations`,
    /// recorded now.
    pub fn new_derived(source: Source, derivations: Vec<Derivation>, agent_id: AgentId) -> (r: Self)
        ensures
            r.source == source,
            r.derived_from@ == derivations@,
            r.agent_id == agent_id,
            r.created_at_ms >= 0,
            r.last_accessed_ms == r.created_at_ms,
            r.access_count == 0,
    {
        let now = now_millis();
        Provenance {
            source,
            derived_from: derivations,
            agent_id,
            created_at_ms: now,
            last_accessed_ms: now,
            access_count: 0,
        }
    }

    /// Record an access, made now.
    pub fn record_access(&mut self)
        requires
            old(self).access_count < u64::MAX,
        ensures
            *final(self) == (Provenance {
                access_count: (old(self).access_count + 1) as u64,
                last_accessed_ms: final(self).last_accessed_ms,
                ..*old(self)
            }),
            final(self).last_accessed_ms >= 0,
    {
        self.access_count = self.access_count + 1;
        self.last_accessed_ms = now_millis();
    }
}

} // verus!
