//! The default decay schedule: how fast each kind of memory loses confidence
//! while it is not accessed, and the floor it does not fall below. Types
//! without a schedule do not decay.

use vstd::prelude::*;

use crate::memory_type::{category_of, MemoryCategory, MemoryType};

verus! {

/// Seconds in a day.
pub const SECS_PER_DAY: u64 = 86400;

/// How one memory type decays.
#[derive(Debug, Clone, Copy, PartialEq, Eq, Structural)]
pub struct DecaySchedule {
    /// Half-life of the exponential decay, in seconds
    pub half_life_secs: u64,
    /// The confidence the decay stops at, in tenths (a floor of 0.2 is 2)
    pub min_confidence_tenths: u8,
}

/// A schedule with a half-life of `days` days and a floor of `tenths` tenths.
pub open spec fn schedule(days: nat, tenths: u8) -> DecaySchedule {
    DecaySchedule { half_life_secs: (days * 86400) as u64, min_confidence_tenths: tenths }
}

/// The default schedule of each memory type: episodic memories fade within
/// weeks, semantic ones over months, procedural ones over half a year or
/// more; goals keep a year's half-life and no floor.
pub open spec fn default_schedule(t: MemoryType) -> Option<DecaySchedule> {
    match t {
        MemoryType::EpisodicConversation => Some(schedule(7, 1)),
        MemoryType::EpisodicEvent => Some(schedule(14, 1)),
        MemoryType::EpisodicObservation => Some(schedule(7, 1)),
        MemoryType::SemanticFact => Some(schedule(90, 2)),
        MemoryType::SemanticPreference => Some(schedule(30, 2)),
        MemoryType::ProceduralWorkflow => Some(schedule(365, 3)),
        MemoryType::ProceduralSkill => Some(schedule(180, 2)),
        MemoryType::ProceduralCase => Some(schedule(180, 2)),
        MemoryType::AgentStateGoal => Some(schedule(365, 0)),
        _ => None,
    }
}

fn days(n: u64, tenths: u8) -> (r: DecaySchedule)
    requires
        n <= 365,
    ensures
        r == schedule(n as nat, tenths),
{
    DecaySchedule { half_life_secs: n * SECS_PER_DAY, min_confidence_tenths: tenths }
}

/// The schedule a memory type decays by under the default policy, if any.
pub fn default_decay_schedule(t: MemoryType) -> (r: Option<DecaySchedule>)
    ensures
        r == default_schedule(t),
{
    match t {
        MemoryType::EpisodicConversation => Some(days(7, 1)),
        MemoryType::EpisodicEvent => Some(days(14, 1)),
        MemoryType::EpisodicObservation => Some(days(7, 1)),
        MemoryType::SemanticFact => Some(days(90, 2)),
        MemoryType::SemanticPreference => Some(days(30, 2)),
        MemoryType::ProceduralWorkflow => Some(days(365, 3)),
        MemoryType::ProceduralSkill => Some(days(180, 2)),
        MemoryType::ProceduralCase => Some(days(180, 2)),
        MemoryType::AgentStateGoal => Some(days(365, 0)),
        _ => None,
    }
}

/// Under the default policy, episodic memories decay faster than semantic
/// ones, and semantic ones faster than procedural ones: any scheduled
/// episodic type has a shorter half-life than any scheduled semantic type,
/// which has a shorter one than any scheduled procedural type.
pub proof fn lemma_default_decay_order(a: MemoryType, b: MemoryType)
    requires
        default_schedule(a) is Some,
        default_schedule(b) is Some,
        (category_of(a) == MemoryCategory::Episodic && category_of(b) == MemoryCategory::Semantic)
            || (category_of(a) == MemoryCategory::Semantic && category_of(b)
            == MemoryCategory::Procedural),
    ensures
        default_schedule(a).unwrap().half_life_secs < default_schedule(b).unwrap().half_life_secs,
{
}

/// The default table: conversations and observations halve in a week (604800
/// s) and events in two weeks, down to a floor of 0.1; facts halve in 90 days
/// and preferences in 30, down to 0.2; workflows halve in a year (31536000 s)
/// down to 0.3; skills and cases in 180 days down to 0.2; goals in a year
/// with no floor. Concepts, entities, patterns, tasks and working memory have
/// no schedule and do not decay.
pub proof fn lemma_default_decay_table()
    ensures
        default_schedule(MemoryType::EpisodicConversation) == Some(DecaySchedule { half_life_secs: 604800, min_confidence_tenths: 1 }),
        default_schedule(MemoryType::EpisodicEvent) == Some(DecaySchedule { half_life_secs: 1209600, min_confidence_tenths: 1 }),
        default_schedule(MemoryType::EpisodicObservation) == Some(DecaySchedule { half_life_secs: 604800, min_confidence_tenths: 1 }),
        default_schedule(MemoryType::SemanticFact) == Some(DecaySchedule { half_life_secs: 7776000, min_confidence_tenths: 2 }),
        default_schedule(MemoryType::SemanticPreference) == Some(DecaySchedule { half_life_secs: 2592000, min_confidence_tenths: 2 }),
        default_schedule(MemoryType::ProceduralWorkflow) == Some(DecaySchedule { half_life_secs: 31536000, min_confidence_tenths: 3 }),
        default_schedule(MemoryType::ProceduralSkill) == Some(DecaySchedule { half_life_secs: 15552000, min_confidence_tenths: 2 }),
        default_schedule(MemoryType::ProceduralCase) == Some(DecaySchedule { half_life_secs: 15552000, min_confidence_tenths: 2 }),
        default_schedule(MemoryType::AgentStateGoal) == Some(DecaySchedule { half_life_secs: 31536000, min_confidence_tenths: 0 }),
        default_schedule(MemoryType::SemanticConcept) is None,
        default_schedule(MemoryType::SemanticEntity) is None,
        default_schedule(MemoryType::ProceduralPattern) is None,
        default_schedule(MemoryType::AgentStateTask) is None,
        default_schedule(MemoryType::AgentStateWorkingMemory) is None,
{
}

} // verus!
