//! Memory type classification: the fourteen concrete kinds of memory and the
//! four broad categories they fall into.

use vstd::prelude::*;

use crate::text::str_eq;

verus! {

/// Broad memory categories.
#[derive(Debug, Clone, Copy, PartialEq, Eq, Hash, Structural)]
pub enum MemoryCategory {
    Episodic,
    Semantic,
    Procedural,
    AgentState,
}

/// Enum for memory type classification.
#[derive(Debug, Clone, Copy, PartialEq, Eq, Hash, Structural)]
pub enum MemoryType {
    EpisodicConversation,
    EpisodicEvent,
    EpisodicObservation,
    SemanticFact,
    SemanticPreference,
    SemanticConcept,
    SemanticEntity,
    ProceduralWorkflow,
    ProceduralSkill,
    ProceduralPattern,
    ProceduralCase,
    AgentStateGoal,
    AgentStateTask,
    AgentStateWorkingMemory,
}

/// The category a memory type belongs to.
pub open spec fn category_of(t: MemoryType) -> MemoryCategory {
    match t {
        MemoryType::EpisodicConversation
        | MemoryType::EpisodicEvent
        | MemoryType::EpisodicObservation => MemoryCategory::Episodic,
        MemoryType::SemanticFact
        | MemoryType::SemanticPreference
        | MemoryType::SemanticConcept
        | MemoryType::SemanticEntity => MemoryCategory::Semantic,
        MemoryType::ProceduralWorkflow
        | MemoryType::ProceduralSkill
        | MemoryType::ProceduralPattern
        | MemoryType::ProceduralCase => MemoryCategory::Procedural,
        MemoryType::AgentStateGoal
        | MemoryType::AgentStateTask
        | MemoryType::AgentStateWorkingMemory => MemoryCategory::AgentState,
    }
}

/// The members of a category, in declaration order.
pub open spec fn types_in_category(c: MemoryCategory) -> Seq<MemoryType> {
    match c {
        MemoryCategory::Episodic => seq![
            MemoryType::EpisodicConversation,
            MemoryType::EpisodicEvent,
            MemoryType::EpisodicObservation,
        ],
        MemoryCategory::Semantic => seq![
            MemoryType::SemanticFact,
            MemoryType::SemanticPreference,
            MemoryType::SemanticConcept,
            MemoryType::SemanticEntity,
        ],
        MemoryCategory::Procedural => seq![
            MemoryType::ProceduralWorkflow,
            MemoryType::ProceduralSkill,
            MemoryType::ProceduralPattern,
            MemoryType::ProceduralCase,
        ],
        MemoryCategory::AgentState => seq![
            MemoryType::AgentStateGoal,
            MemoryType::AgentStateTask,
            MemoryType::AgentStateWorkingMemory,
        ],
    }
}

/// The snake_case name of a memory type.
pub open spec fn memory_type_name(t: MemoryType) -> Seq<char> {
    match t {
        MemoryType::EpisodicConversation => "episodic_conversation"@,
        MemoryType::EpisodicEvent => "episodic_event"@,
        MemoryType::EpisodicObservation => "episodic_observation"@,
        MemoryType::SemanticFact => "semantic_fact"@,
        MemoryType::SemanticPreference => "semantic_preference"@,
        MemoryType::SemanticConcept => "semantic_concept"@,
        MemoryType::SemanticEntity => "semantic_entity"@,
        MemoryType::ProceduralWorkflow => "procedural_workflow"@,
        MemoryType::ProceduralSkill => "procedural_skill"@,
        MemoryType::ProceduralPattern => "procedural_pattern"@,
        MemoryType::ProceduralCase => "procedural_case"@,
        MemoryType::AgentStateGoal => "agent_state_goal"@,
        MemoryType::AgentStateTask => "agent_state_task"@,
        MemoryType::AgentStateWorkingMemory => "agent_state_working_memory"@,
    }
}

/// The snake_case name of a category.
pub open spec fn category_name(c: MemoryCategory) -> Seq<char> {
    match c {
        MemoryCategory::Episodic => "episodic"@,
        MemoryCategory::Semantic => "semantic"@,
        MemoryCategory::Procedural => "procedural"@,
        MemoryCategory::AgentState => "agent_state"@,
    }
}

/// The memory type whose name is `s`, if any.
pub open spec fn memory_type_named(s: Seq<char>) -> Option<MemoryType> {
    if s == "episodic_conversation"@ {
        Some(MemoryType::EpisodicConversation)
    } else if s == "episodic_event"@ {
        Some(MemoryType::EpisodicEvent)
    } else if s == "episodic_observation"@ {
        Some(MemoryType::EpisodicObservation)
    } else if s == "semantic_fact"@ {
        Some(MemoryType::SemanticFact)
    } else if s == "semantic_preference"@ {
        Some(MemoryType::SemanticPreference)
    } else if s == "semantic_concept"@ {
        Some(MemoryType::SemanticConcept)
    } else if s == "semantic_entity"@ {
        Some(MemoryType::SemanticEntity)
    } else if s == "procedural_workflow"@ {
        Some(MemoryType::ProceduralWorkflow)
    } else if s == "procedural_skill"@ {
        Some(MemoryType::ProceduralSkill)
    } else if s == "procedural_pattern"@ {
        Some(MemoryType::ProceduralPattern)
    } else if s == "procedural_case"@ {
        Some(MemoryType::ProceduralCase)
    } else if s == "agent_state_goal"@ {
        Some(MemoryType::AgentStateGoal)
    } else if s == "agent_state_task"@ {
        Some(MemoryType::AgentStateTask)
    } else if s == "agent_state_working_memory"@ {
        Some(MemoryType::AgentStateWorkingMemory)
    } else {
        None
    }
}

impl MemoryType {
    /// The snake_case name of this type, as shown to users and accepted in filters.
    pub fn name(&self) -> (r: &'static str)
        ensures
            r@ == memory_type_name(*self),
    {
        match self {
            MemoryType::EpisodicConversation => "episodic_conversation",
            MemoryType::EpisodicEvent => "episodic_event",
            MemoryType::EpisodicObservation => "episodic_observation",
            MemoryType::SemanticFact => "semantic_fact",
            MemoryType::SemanticPreference => "semantic_preference",
            MemoryType::SemanticConcept => "semantic_concept",
            MemoryType::SemanticEntity => "semantic_entity",
            MemoryType::ProceduralWorkflow => "procedural_workflow",
            MemoryType::ProceduralSkill => "procedural_skill",
            MemoryType::ProceduralPattern => "procedural_pattern",
            MemoryType::ProceduralCase => "procedural_case",
            MemoryType::AgentStateGoal => "agent_state_goal",
            MemoryType::AgentStateTask => "agent_state_task",
            MemoryType::AgentStateWorkingMemory => "agent_state_working_memory",
        }
    }

    /// Parse a snake_case type name; `None` for any other text.
    pub fn from_name(s: &str) -> (r: Option<MemoryType>)
        ensures
            r == memory_type_named(s@),
    {
        if str_eq(s, "episodic_conversation") {
            Some(MemoryType::EpisodicConversation)
        } else if str_eq(s, "episodic_event") {
            Some(MemoryType::EpisodicEvent)
        } else if str_eq(s, "episodic_observation") {
            Some(MemoryType::EpisodicObservation)
        } else if str_eq(s, "semantic_fact") {
            Some(MemoryType::SemanticFact)
        } else if str_eq(s, "semantic_preference") {
            Some(MemoryType::SemanticPreference)
        } else if str_eq(s, "semantic_concept") {
            Some(MemoryType::SemanticConcept)
        } else if str_eq(s, "semantic_entity") {
            Some(MemoryType::SemanticEntity)
        } else if str_eq(s, "procedural_workflow") {
            Some(MemoryType::ProceduralWorkflow)
        } else if str_eq(s, "procedural_skill") {
            Some(MemoryType::ProceduralSkill)
        } else if str_eq(s, "procedural_pattern") {
            Some(MemoryType::ProceduralPattern)
        } else if str_eq(s, "procedural_case") {
            Some(MemoryType::ProceduralCase)
        } else if str_eq(s, "agent_state_goal") {
            Some(MemoryType::AgentStateGoal)
        } else if str_eq(s, "agent_state_task") {
            Some(MemoryType::AgentStateTask)
        } else if str_eq(s, "agent_state_working_memory") {
            Some(MemoryType::AgentStateWorkingMemory)
        } else {
            None
        }
    }
}

impl MemoryCategory {
    /// The snake_case name of this category.
    pub fn name(&self) -> (r: &'static str)
        ensures
            r@ == category_name(*self),
    {
        match self {
            MemoryCategory::Episodic => "episodic",
            MemoryCategory::Semantic => "semantic",
            MemoryCategory::Procedural => "procedural",
            MemoryCategory::AgentState => "agent_state",
        }
    }
}

/// Reading back the name of a memory type gives that type again, so no two
/// types share a name.
pub proof fn lemma_type_name_round_trip(t: MemoryType)
    ensures
        memory_type_named(memory_type_name(t)) == Some(t),
{
    match t {
        MemoryType::EpisodicConversation => {
            reveal_strlit("episodic_conversation");
        },
        MemoryType::EpisodicEvent => {
            reveal_strlit("episodic_event");
            reveal_strlit("episodic_conversation");
            assert("episodic_event"@.len() != "episodic_conversation"@.len());
        },
        MemoryType::EpisodicObservation => {
            reveal_strlit("episodic_observation");
            reveal_strlit("episodic_conversation");
            assert("episodic_observation"@.len() != "episodic_conversation"@.len());
            reveal_strlit("episodic_event");
            assert("episodic_observation"@.len() != "episodic_event"@.len());
        },
        MemoryType::SemanticFact => {
            reveal_strlit("semantic_fact");
            reveal_strlit("episodic_conversation");
            assert("semantic_fact"@.len() != "episodic_conversation"@.len());
            reveal_strlit("episodic_event");
            assert("semantic_fact"@.len() != "episodic_event"@.len());
            reveal_strlit("episodic_observation");
            assert("semantic_fact"@.len() != "episodic_observation"@.len());
        },
        MemoryType::SemanticPreference => {
            reveal_strlit("semantic_preference");
            reveal_strlit("episodic_conversation");
            assert("semantic_preference"@.len() != "episodic_conversation"@.len());
            reveal_strlit("episodic_event");
            assert("semantic_preference"@.len() != "episodic_event"@.len());
            reveal_strlit("episodic_observation");
            assert("semantic_preference"@.len() != "episodic_observation"@.len());
            reveal_strlit("semantic_fact");
            assert("semantic_preference"@.len() != "semantic_fact"@.len());
        },
        MemoryType::SemanticConcept => {
            reveal_strlit("semantic_concept");
            reveal_strlit("episodic_conversation");
            assert("semantic_concept"@.len() != "episodic_conversation"@.len());
            reveal_strlit("episodic_event");
            assert("semantic_concept"@.len() != "episodic_event"@.len());
            reveal_strlit("episodic_observation");
            assert("semantic_concept"@.len() != "episodic_observation"@.len());
            reveal_strlit("semantic_fact");
            assert("semantic_concept"@.len() != "semantic_fact"@.len());
            reveal_strlit("semantic_preference");
            assert("semantic_concept"@.len() != "semantic_preference"@.len());
        },
        MemoryType::SemanticEntity => {
            reveal_strlit("semantic_entity");
            reveal_strlit("episodic_conversation");
            assert("semantic_entity"@.len() != "episodic_conversation"@.len());
            reveal_strlit("episodic_event");
            assert("semantic_entity"@.len() != "episodic_event"@.len());
            reveal_strlit("episodic_observation");
            assert("semantic_entity"@.len() != "episodic_observation"@.len());
            reveal_strlit("semantic_fact");
            assert("semantic_entity"@.len() != "semantic_fact"@.len());
            reveal_strlit("semantic_preference");
            assert("semantic_entity"@.len() != "semantic_preference"@.len());
            reveal_strlit("semantic_concept");
            assert("semantic_entity"@.len() != "semantic_concept"@.len());
        },
        MemoryType::ProceduralWorkflow => {
            reveal_strlit("procedural_workflow");
            reveal_strlit("episodic_conversation");
            assert("procedural_workflow"@.len() != "episodic_conversation"@.len());
            reveal_strlit("episodic_event");
            assert("procedural_workflow"@.len() != "episodic_event"@.len());
            reveal_strlit("episodic_observation");
            assert("procedural_workflow"@.len() != "episodic_observation"@.len());
            reveal_strlit("semantic_fact");
            assert("procedural_workflow"@.len() != "semantic_fact"@.len());
            reveal_strlit("semantic_preference");
            assert("procedural_workflow"@[0] != "semantic_preference"@[0]);
            reveal_strlit("semantic_concept");
            assert("procedural_workflow"@.len() != "semantic_concept"@.len());
            reveal_strlit("semantic_entity");
            assert("procedural_workflow"@.len() != "semantic_entity"@.len());
        },
        MemoryType::ProceduralSkill => {
            reveal_strlit("procedural_skill");
            reveal_strlit("episodic_conversation");
            assert("procedural_skill"@.len() != "episodic_conversation"@.len());
            reveal_strlit("episodic_event");
            assert("procedural_skill"@.len() != "episodic_event"@.len());
            reveal_strlit("episodic_observation");
            assert("procedural_skill"@.len() != "episodic_observation"@.len());
            reveal_strlit("semantic_fact");
            assert("procedural_skill"@.len() != "semantic_fact"@.len());
            reveal_strlit("semantic_preference");
            assert("procedural_skill"@.len() != "semantic_preference"@.len());
            reveal_strlit("semantic_concept");
            assert("procedural_skill"@[0] != "semantic_concept"@[0]);
            reveal_strlit("semantic_entity");
            assert("procedural_skill"@.len() != "semantic_entity"@.len());
            reveal_strlit("procedural_workflow");
            assert("procedural_skill"@.len() != "procedural_workflow"@.len());
        },
        MemoryType::ProceduralPattern => {
            reveal_strlit("procedural_pattern");
            reveal_strlit("episodic_conversation");
            assert("procedural_pattern"@.len() != "episodic_conversation"@.len());
            reveal_strlit("episodic_event");
            assert("procedural_pattern"@.len() != "episodic_event"@.len());
            reveal_strlit("episodic_observation");
            assert("procedural_pattern"@.len() != "episodic_observation"@.len());
            reveal_strlit("semantic_fact");
            assert("procedural_pattern"@.len() != "semantic_fact"@.len());
            reveal_strlit("semantic_preference");
            assert("procedural_pattern"@.len() != "semantic_preference"@.len());
            reveal_strlit("semantic_concept");
            assert("procedural_pattern"@.len() != "semantic_concept"@.len());
            reveal_strlit("semantic_entity");
            assert("procedural_pattern"@.len() != "semantic_entity"@.len());
            reveal_strlit("procedural_workflow");
            assert("procedural_pattern"@.len() != "procedural_workflow"@.len());
            reveal_strlit("procedural_skill");
            assert("procedural_pattern"@.len() != "procedural_skill"@.len());
        },
        MemoryType::ProceduralCase => {
            reveal_strlit("procedural_case");
            reveal_strlit("episodic_conversation");
            assert("procedural_case"@.len() != "episodic_conversation"@.len());
            reveal_strlit("episodic_event");
            assert("procedural_case"@.len() != "episodic_event"@.len());
            reveal_strlit("episodic_observation");
            assert("procedural_case"@.len() != "episodic_observation"@.len());
            reveal_strlit("semantic_fact");
            assert("procedural_case"@.len() != "semantic_fact"@.len());
            reveal_strlit("semantic_preference");
            assert("procedural_case"@.len() != "semantic_preference"@.len());
            reveal_strlit("semantic_concept");
            assert("procedural_case"@.len() != "semantic_concept"@.len());
            reveal_strlit("semantic_entity");
            assert("procedural_case"@[0] != "semantic_entity"@[0]);
            reveal_strlit("procedural_workflow");
            assert("procedural_case"@.len() != "procedural_workflow"@.len());
            reveal_strlit("procedural_skill");
            assert("procedural_case"@.len() != "procedural_skill"@.len());
            reveal_strlit("procedural_pattern");
            assert("procedural_case"@.len() != "procedural_pattern"@.len());
        },
        MemoryType::AgentStateGoal => {
            reveal_strlit("agent_state_goal");
            reveal_strlit("episodic_conversation");
            assert("agent_state_goal"@.len() != "episodic_conversation"@.len());
            reveal_strlit("episodic_event");
            assert("agent_state_goal"@.len() != "episodic_event"@.len());
            reveal_strlit("episodic_observation");
            assert("agent_state_goal"@.len() != "episodic_observation"@.len());
            reveal_strlit("semantic_fact");
            assert("agent_state_goal"@.len() != "semantic_fact"@.len());
            reveal_strlit("semantic_preference");
            assert("agent_state_goal"@.len() != "semantic_preference"@.len());
            reveal_strlit("semantic_concept");
            assert("agent_state_goal"@[0] != "semantic_concept"@[0]);
            reveal_strlit("semantic_entity");
            assert("agent_state_goal"@.len() != "semantic_entity"@.len());
            reveal_strlit("procedural_workflow");
            assert("agent_state_goal"@.len() != "procedural_workflow"@.len());
            reveal_strlit("procedural_skill");
            assert("agent_state_goal"@[0] != "procedural_skill"@[0]);
            reveal_strlit("procedural_pattern");
            assert("agent_state_goal"@.len() != "procedural_pattern"@.len());
            reveal_strlit("procedural_case");
            assert("agent_state_goal"@.len() != "procedural_case"@.len());
        },
        MemoryType::AgentStateTask => {
            reveal_strlit("agent_state_task");
            reveal_strlit("episodic_conversation");
            assert("agent_state_task"@.len() != "episodic_conversation"@.len());
            reveal_strlit("episodic_event");
            assert("agent_state_task"@.len() != "episodic_event"@.len());
            reveal_strlit("episodic_observation");
            assert("agent_state_task"@.len() != "episodic_observation"@.len());
            reveal_strlit("semantic_fact");
            assert("agent_state_task"@.len() != "semantic_fact"@.len());
            reveal_strlit("semantic_preference");
            assert("agent_state_task"@.len() != "semantic_preference"@.len());
            reveal_strlit("semantic_concept");
            assert("agent_state_task"@[0] != "semantic_concept"@[0]);
            reveal_strlit("semantic_entity");
            assert("agent_state_task"@.len() != "semantic_entity"@.len());
            reveal_strlit("procedural_workflow");
            assert("agent_state_task"@.len() != "procedural_workflow"@.len());
            reveal_strlit("procedural_skill");
            assert("agent_state_task"@[0] != "procedural_skill"@[0]);
            reveal_strlit("procedural_pattern");
            assert("agent_state_task"@.len() != "procedural_pattern"@.len());
            reveal_strlit("procedural_case");
            assert("agent_state_task"@.len() != "procedural_case"@.len());
            reveal_strlit("agent_state_goal");
            assert("agent_state_task"@[12] != "agent_state_goal"@[12]);
        },
        MemoryType::AgentStateWorkingMemory => {
            reveal_strlit("agent_state_working_memory");
            reveal_strlit("episodic_conversation");
            assert("agent_state_working_memory"@.len() != "episodic_conversation"@.len());
            reveal_strlit("episodic_event");
            assert("agent_state_working_memory"@.len() != "episodic_event"@.len());
            reveal_strlit("episodic_observation");
            assert("agent_state_working_memory"@.len() != "episodic_observation"@.len());
            reveal_strlit("semantic_fact");
            assert("agent_state_working_memory"@.len() != "semantic_fact"@.len());
            reveal_strlit("semantic_preference");
            assert("agent_state_working_memory"@.len() != "semantic_preference"@.len());
            reveal_strlit("semantic_concept");
            assert("agent_state_working_memory"@.len() != "semantic_concept"@.len());
            reveal_strlit("semantic_entity");
            assert("agent_state_working_memory"@.len() != "semantic_entity"@.len());
            reveal_strlit("procedural_workflow");
            assert("agent_state_working_memory"@.len() != "procedural_workflow"@.len());
            reveal_strlit("procedural_skill");
            assert("agent_state_working_memory"@.len() != "procedural_skill"@.len());
            reveal_strlit("procedural_pattern");
            assert("agent_state_working_memory"@.len() != "procedural_pattern"@.len());
            reveal_strlit("procedural_case");
            assert("agent_state_working_memory"@.len() != "procedural_case"@.len());
            reveal_strlit("agent_state_goal");
            assert("agent_state_working_memory"@.len() != "agent_state_goal"@.len());
            reveal_strlit("agent_state_task");
            assert("agent_state_working_memory"@.len() != "agent_state_task"@.len());
        },
    }
}

impl MemoryType {
    /// Get the broad category (Episodic, Semantic, Procedural, AgentState).
    pub fn category(&self) -> (c: MemoryCategory)
        ensures
            c == category_of(*self),
    {
        match self {
            MemoryType::EpisodicConversation
            | MemoryType::EpisodicEvent
            | MemoryType::EpisodicObservation => MemoryCategory::Episodic,
            MemoryType::SemanticFact
            | MemoryType::SemanticPreference
            | MemoryType::SemanticConcept
            | MemoryType::SemanticEntity => MemoryCategory::Semantic,
            MemoryType::ProceduralWorkflow
            | MemoryType::ProceduralSkill
            | MemoryType::ProceduralPattern
            | MemoryType::ProceduralCase => MemoryCategory::Procedural,
            MemoryType::AgentStateGoal
            | MemoryType::AgentStateTask
            | MemoryType::AgentStateWorkingMemory => MemoryCategory::AgentState,
        }
    }

    /// Get all types in this category.
    pub fn all_in_category(category: MemoryCategory) -> (v: Vec<MemoryType>)
        ensures
            v@ == types_in_category(category),
    {
        match category {
            MemoryCategory::Episodic => vec![
                MemoryType::EpisodicConversation,
                MemoryType::EpisodicEvent,
                MemoryType::EpisodicObservation,
            ],
            MemoryCategory::Semantic => vec![
                MemoryType::SemanticFact,
                MemoryType::SemanticPreference,
                MemoryType::SemanticConcept,
                MemoryType::SemanticEntity,
            ],
            MemoryCategory::Procedural => vec![
                MemoryType::ProceduralWorkflow,
                MemoryType::ProceduralSkill,
                MemoryType::ProceduralPattern,
                MemoryType::ProceduralCase,
            ],
            MemoryCategory::AgentState => vec![
                MemoryType::AgentStateGoal,
                MemoryType::AgentStateTask,
                MemoryType::AgentStateWorkingMemory,
            ],
        }
    }
}

/// The categories partition the memory types: a type is listed among the
/// members of a category exactly when that category is its own.
pub proof fn lemma_categories_partition_types(t: MemoryType, c: MemoryCategory)
    ensures
        types_in_category(c).contains(t) <==> category_of(t) == c,
{
    let s = types_in_category(c);
    if category_of(t) == c {
        match t {
            MemoryType::EpisodicConversation | MemoryType::SemanticFact
            | MemoryType::ProceduralWorkflow | MemoryType::AgentStateGoal => {
                assert(s[0] == t);
            },
            MemoryType::EpisodicEvent | MemoryType::SemanticPreference
            | MemoryType::ProceduralSkill | MemoryType::AgentStateTask => {
                assert(s[1] == t);
            },
            MemoryType::EpisodicObservation | MemoryType::SemanticConcept
            | MemoryType::ProceduralPattern | MemoryType::AgentStateWorkingMemory => {
                assert(s[2] == t);
            },
            MemoryType::SemanticEntity | MemoryType::ProceduralCase => {
                assert(s[3] == t);
            },
        }
    }
    if s.contains(t) {
        let i = choose|i: int| 0 <= i < s.len() && s[i] == t;
        assert(category_of(s[i]) == c);
    }
}

} // verus!
