use membrain::agent_state::{
    AgentStateContent, AgentStateMemory, Goal, GoalStatus, Task, TaskStatus, WorkingMemoryItem, WorkingMemoryType,
};
use membrain::embedding::Embedding;
use membrain::episodic::{EpisodicContent, EpisodicMemory, EventMemory, ObservationMemory};
use membrain::ids::{AgentId, MemoryId};
use membrain::memory::{Memory, MemoryCommon};
use membrain::memory_type::{MemoryCategory, MemoryType};
use membrain::procedural::{
    CaseMemory, PatternMemory, PatternObservation, PatternType, ProceduralContent, ProceduralMemory, SkillExample,
    SkillMemory, StepDefinition, WorkflowIO, WorkflowMemory, MAX_PATTERN_OBSERVATIONS,
};
use membrain::semantic::{
    ConceptMemory, EntityMemory, EntityType, FactMemory, PreferenceMemory, SemanticContent, SemanticMemory,
};
use membrain::provenance::{Provenance, Source};

fn direct_common(agent: AgentId) -> MemoryCommon {
    MemoryCommon::new(agent, Provenance::new_direct(Source::user_input("test"), agent))
}


fn now_ms() -> i64 {
    chrono::Utc::now().timestamp_millis()
}

fn common() -> MemoryCommon {
    direct_common(AgentId::new()).with_confidence(0.8f64.to_bits())
}

fn semantic(content: SemanticContent) -> Memory {
    Memory::Semantic(SemanticMemory { common: common(), content })
}

#[test]
fn goal_blocking() {
    let mut goal = Goal::new("Test goal");
    goal.block("Waiting for dependencies");

    assert_eq!(goal.status, GoalStatus::Blocked);
    assert_eq!(goal.status_reason, Some("Waiting for dependencies".to_string()));
}

#[test]
fn goal_completion_sets_full_progress() {
    let mut goal = Goal::new("Complete project").with_criteria(vec!["All tasks done", "Tests passing"]);
    assert_eq!(goal.status, GoalStatus::Active);
    assert_eq!(f64::from_bits(goal.progress), 0.0);
    assert_eq!(f64::from_bits(goal.priority), 0.5);
    assert_eq!(goal.success_criteria.len(), 2);
    goal.complete();
    assert_eq!(goal.status, GoalStatus::Completed);
    assert_eq!(f64::from_bits(goal.progress), 1.0);
    assert!(goal.completed_at_ms.is_some());
    goal.fail("dropped");
    assert_eq!(goal.status, GoalStatus::Failed);
    assert_eq!(goal.status_reason, Some("dropped".to_string()));
}

#[test]
fn goal_deadline_decides_overdue() {
    let past = Goal::new("late").with_deadline(now_ms() - 3_600_000);
    assert!(past.is_overdue());
    let future = Goal::new("early").with_deadline(now_ms() + 3_600_000);
    assert!(!future.is_overdue());
    let mut done = Goal::new("done").with_deadline(now_ms() - 3_600_000);
    done.complete();
    assert!(!done.is_overdue());
    assert!(!Goal::new("open").is_overdue());
}

#[test]
fn task_lifecycle() {
    let mut task = Task::new("Write tests")
        .with_description("Add unit tests")
        .with_labels(vec!["testing", "urgent"]);

    assert_eq!(task.status, TaskStatus::Pending);

    task.start();
    assert_eq!(task.status, TaskStatus::InProgress);
    assert!(task.started_at_ms.is_some());

    task.complete(Some("All tests written".to_string()));
    assert_eq!(task.status, TaskStatus::Completed);
    assert!(task.completed_at_ms.is_some());
    assert!(task.actual_effort.is_some());
    assert_eq!(task.result, Some("All tests written".to_string()));
}

#[test]
fn task_effort_counts_whole_minutes() {
    let mut task = Task::new("long job");
    task.started_at_ms = Some(now_ms() - 150_000);
    task.complete(None);
    assert_eq!(task.actual_effort, Some(2));

    let mut never_started = Task::new("skipped");
    never_started.complete(None);
    assert_eq!(never_started.actual_effort, None);
}

#[test]
fn task_dependencies_on_the_task() {
    let a = MemoryId::from_u128(1);
    let b = MemoryId::from_u128(2);
    let task = Task::new("Deploy").with_dependency(a).with_dependency(b);
    assert_eq!(task.dependencies.len(), 2);
    assert!(!task.dependencies_met(&vec![]));
    assert!(!task.dependencies_met(&vec![a]));
    assert!(task.dependencies_met(&vec![b, a]));
}

#[test]
fn task_overdue_and_text() {
    let mut task = Task::new("Ship").with_due_date(now_ms() - 1000).with_estimated_effort(30);
    assert!(task.is_overdue());
    task.block();
    assert_eq!(task.status, TaskStatus::Blocked);
    task.fail("no approver");
    assert_eq!(task.status, TaskStatus::Failed);
    assert_eq!(task.result, Some("no approver".to_string()));
    assert_eq!(task.text_content(), "Task: Ship\nStatus: Failed\nResult: no approver");
}

#[test]
fn working_memory_creation() {
    let item = WorkingMemoryItem::new(WorkingMemoryType::Context, "User is asking about Rust")
        .with_source("conversation")
        .with_expiration(now_ms() + 3_600_000);

    assert_eq!(item.item_type, WorkingMemoryType::Context);
    assert_eq!(f64::from_bits(item.relevance), 0.5);
    assert!(!item.is_expired());
    assert_eq!(item.text_content(), "Working Memory (Context): User is asking about Rust\nSource: conversation");
}

#[test]
fn working_memory_expiration() {
    let item = WorkingMemoryItem::new(WorkingMemoryType::TemporaryFact, "temp").with_expiration(now_ms() - 3_600_000);

    assert!(item.is_expired());
}

#[test]
fn event_memory_creation() {
    let event = EventMemory::new("meeting", "Team standup meeting")
        .with_participants(vec!["Alice", "Bob"])
        .with_location("Conference Room A")
        .with_outcome("Discussed sprint goals");

    assert_eq!(f64::from_bits(event.significance), 0.5);
    assert_eq!(event.participants.len(), 2);
    assert!(event.location.is_some());
    assert_eq!(
        event.text_content(),
        "Event: meeting - Team standup meeting\nParticipants: Alice, Bob\nLocation: Conference Room A\nOutcome: Discussed sprint goals"
    );
}

#[test]
fn workflow_memory_creation() {
    let workflow = WorkflowMemory::new("deploy", "Deploy application to production")
        .with_triggers(vec!["deploy command", "CI/CD pipeline"])
        .with_step(StepDefinition::new("build", "Build the application", "npm build"))
        .with_step(StepDefinition::new("test", "Run tests", "npm test"))
        .with_step(StepDefinition::new("deploy", "Deploy to server", "kubectl apply"))
        .with_inputs(vec![WorkflowIO::required("version")])
        .with_outputs(vec![WorkflowIO::required("deployment_url")]);

    assert_eq!(workflow.steps.len(), 3);
    assert_eq!(workflow.triggers.len(), 2);
    assert_eq!(workflow.inputs.len(), 1);
    assert_eq!(workflow.execution_count, 0);
    assert!(workflow.success_rate.is_none());
}

#[test]
fn skill_memory_creation() {
    let skill = SkillMemory::new("code_review", "Review code for issues")
        .with_category("development")
        .with_invocation("When asked to review code")
        .with_example(SkillExample::new("Review this function", "Found 2 issues: ..."));

    assert_eq!(f64::from_bits(skill.proficiency), 0.5);
    assert_eq!(skill.examples.len(), 1);
    assert_eq!(skill.category, Some("development".to_string()));
}

#[test]
fn pattern_memory_creation() {
    let pattern = PatternMemory::new("greeting", "User greeting pattern", PatternType::Conversation)
        .with_indicators(vec!["hello", "hi", "good morning"])
        .with_response("Respond with a friendly greeting");

    assert_eq!(pattern.indicators.len(), 3);
    assert!(pattern.typical_response.is_some());
    assert_eq!(f64::from_bits(pattern.accuracy), 0.5);
}

#[test]
fn pattern_keeps_recent_observations() {
    let mut pattern = PatternMemory::new("p", "d", PatternType::Other);
    for i in 0..(MAX_PATTERN_OBSERVATIONS + 3) {
        pattern.add_observation(PatternObservation::new(&format!("ctx {}", i), true));
    }
    assert_eq!(pattern.observations.len(), MAX_PATTERN_OBSERVATIONS);
}

#[test]
fn case_memory_creation() {
    let case = CaseMemory::new(
        "How to deploy a service",
        "1. Build image 2. Push to registry 3. Apply k8s manifest",
        "Service deployed successfully",
        1.0f64.to_bits(),
    )
    .with_domain("devops")
    .with_features(vec!["deployment", "kubernetes"]);

    assert_eq!(f64::from_bits(case.reward), 1.0);
    assert_eq!(case.domain, Some("devops".to_string()));
    assert_eq!(case.problem_features.len(), 2);
    assert!(!case.validated);
    assert!(case.validated().validated);
}

#[test]
fn case_memory_retrieval_tracking() {
    let mut case = CaseMemory::new("p", "pl", "o", 1.0f64.to_bits());
    assert_eq!(case.retrieval_count, 0);
    assert!(case.last_retrieved_ms.is_none());

    case.record_retrieval();
    assert_eq!(case.retrieval_count, 1);
    assert!(case.last_retrieved_ms.is_some());
}

#[test]
fn memory_type_follows_the_content() {
    let cases: Vec<(Memory, MemoryType)> = vec![
        (semantic(SemanticContent::Fact(FactMemory::new("the sky is blue"))), MemoryType::SemanticFact),
        (
            semantic(SemanticContent::Preference(PreferenceMemory::new("Angela", "food", "pizza"))),
            MemoryType::SemanticPreference,
        ),
        (
            semantic(SemanticContent::Concept(ConceptMemory::new("HNSW", "Hierarchical Navigable Small World"))),
            MemoryType::SemanticConcept,
        ),
        (semantic(SemanticContent::Entity(EntityMemory::new("Rust", EntityType::Other))), MemoryType::SemanticEntity),
        (
            Memory::Episodic(EpisodicMemory {
                common: common(),
                content: EpisodicContent::Event(EventMemory::new("login", "user logged in at 09:00")),
            }),
            MemoryType::EpisodicEvent,
        ),
        (
            Memory::Episodic(EpisodicMemory {
                common: common(),
                content: EpisodicContent::Observation(ObservationMemory::new("the room is quiet")),
            }),
            MemoryType::EpisodicObservation,
        ),
        (
            Memory::Procedural(ProceduralMemory {
                common: common(),
                content: ProceduralContent::Workflow(WorkflowMemory::new("deploy", "deploy service to production")),
            }),
            MemoryType::ProceduralWorkflow,
        ),
        (
            Memory::Procedural(ProceduralMemory {
                common: common(),
                content: ProceduralContent::Case(CaseMemory::new("p", "pl", "o", 0)),
            }),
            MemoryType::ProceduralCase,
        ),
        (
            Memory::AgentState(AgentStateMemory {
                common: common(),
                content: AgentStateContent::Goal(Goal::new("ship v1")),
            }),
            MemoryType::AgentStateGoal,
        ),
        (
            Memory::AgentState(AgentStateMemory {
                common: common(),
                content: AgentStateContent::WorkingMemory(WorkingMemoryItem::new(WorkingMemoryType::Context, "c")),
            }),
            MemoryType::AgentStateWorkingMemory,
        ),
    ];
    for (memory, expected) in cases {
        assert_eq!(memory.memory_type(), expected);
        let category = match &memory {
            Memory::Episodic(_) => MemoryCategory::Episodic,
            Memory::Semantic(_) => MemoryCategory::Semantic,
            Memory::Procedural(_) => MemoryCategory::Procedural,
            Memory::AgentState(_) => MemoryCategory::AgentState,
        };
        assert_eq!(memory.memory_type().category(), category);
    }
}

#[test]
fn set_text_content_replaces_the_primary_text() {
    let mut fact = semantic(SemanticContent::Fact(FactMemory::new("a")));
    let id = *fact.id();
    fact.set_text_content("a!");
    match &fact {
        Memory::Semantic(SemanticMemory { content: SemanticContent::Fact(f), .. }) => assert_eq!(f.statement, "a!"),
        _ => panic!("still a fact"),
    }
    assert_eq!(*fact.id(), id);
    assert_eq!(fact.memory_type(), MemoryType::SemanticFact);

    let mut entity = semantic(SemanticContent::Entity(EntityMemory::new("Rust", EntityType::Other)));
    entity.set_text_content("a language");
    match &entity {
        Memory::Semantic(SemanticMemory { content: SemanticContent::Entity(e), .. }) => {
            assert_eq!(e.description, Some("a language".to_string()));
            assert_eq!(e.name, "Rust");
        }
        _ => panic!("still an entity"),
    }

    let mut case = Memory::Procedural(ProceduralMemory {
        common: common(),
        content: ProceduralContent::Case(CaseMemory::new("p", "pl", "o", 0)),
    });
    case.set_text_content("changed");
    match &case {
        Memory::Procedural(ProceduralMemory { content: ProceduralContent::Case(c), .. }) => {
            assert_eq!(c.outcome, "changed");
            assert_eq!(c.plan, "pl");
        }
        _ => panic!("still a case"),
    }

    let mut task = Memory::AgentState(AgentStateMemory {
        common: common(),
        content: AgentStateContent::Task(Task::new("title")),
    });
    task.set_text_content("details");
    match &task {
        Memory::AgentState(AgentStateMemory { content: AgentStateContent::Task(t), .. }) => {
            assert_eq!(t.description, Some("details".to_string()));
            assert_eq!(t.title, "title");
        }
        _ => panic!("still a task"),
    }
}

#[test]
fn common_fields_are_shared_by_every_kind() {
    let mut memory = semantic(SemanticContent::Fact(FactMemory::new("fact")));
    assert_eq!(f64::from_bits(memory.confidence()), 0.8);
    assert!(memory.embedding().is_none());
    memory.set_embedding(Embedding::new(vec![0, 1, 2]));
    assert_eq!(memory.embedding().map(|e| e.dimension()), Some(3));
    memory.common_mut().version = 7;
    assert_eq!(memory.common().version, 7);
    assert_eq!(memory.memory_type(), MemoryType::SemanticFact);
    assert_eq!(
        SemanticMemory { common: common(), content: SemanticContent::Fact(FactMemory::new("fact")) }.text_content(),
        "fact"
    );
}

#[test]
fn setting_text_twice_keeps_the_second() {
    let mut memory = Memory::Episodic(EpisodicMemory {
        common: common(),
        content: EpisodicContent::Observation(ObservationMemory::new("first").with_category("ui")),
    });
    let id = *memory.id();
    memory.set_text_content("second");
    memory.set_text_content("third");
    assert_eq!(*memory.id(), id);
    assert_eq!(memory.memory_type(), MemoryType::EpisodicObservation);
    match &memory {
        Memory::Episodic(EpisodicMemory { content: EpisodicContent::Observation(o), .. }) => {
            assert_eq!(o.content, "third");
            assert_eq!(o.category, Some("ui".to_string()));
        }
        _ => panic!("still an observation"),
    }
}
