use membrain::agent_state::{
    dependencies_met, goal_text, task_text, working_memory_text, GoalStatus, TaskStatus,
    WorkingMemoryType,
};
use membrain::episodic::{
    event_text, ConversationMemory, Message, MessageRole, ObservationMemory,
};
use membrain::ids::{MemoryId, SessionId};
use membrain::memory_type::{MemoryCategory, MemoryType};
use membrain::procedural::{
    add_observation, case_text, pattern_text, skill_text, workflow_text, PatternObservation,
    PatternType, SkillExample, StepDefinition, WorkflowIO, MAX_PATTERN_OBSERVATIONS,
};
use membrain::semantic::{EntityMemory, EntityRelationship, EntityType};
use membrain::text::decimal_text;

#[test]
fn entity_memory_creation() {
    let entity = EntityMemory::new("Alice Smith", EntityType::Person)
        .with_description("Project manager")
        .with_aliases(vec!["Alice", "AS"])
        .with_attribute("role", "PM")
        .with_relationship(EntityRelationship::new("works at", "Acme Corp"));

    let text = entity.text_content();
    assert!(text.contains("Alice Smith"));
    assert!(text.contains("person"));
    assert!(text.contains("works at"));
    assert_eq!(
        text,
        "Entity: Alice Smith (person)\nDescription: Project manager\nAlso known as: Alice, AS\nrole: PM\nRelationship: Alice Smith works at Acme Corp"
    );
}

#[test]
fn entity_attribute_replaces_existing_key() {
    let entity = EntityMemory::new("X", EntityType::Other)
        .with_attribute("role", "PM")
        .with_attribute("team", "core")
        .with_attribute("role", "CTO");
    assert_eq!(entity.attributes.len(), 2);
    assert_eq!(entity.attributes[0], ("role".to_string(), "CTO".to_string()));
}

#[test]
fn entity_mention_counting() {
    let mut entity = EntityMemory::new("Bob", EntityType::Person);
    assert_eq!(entity.mention_count, 1);
    entity.record_mention();
    assert_eq!(entity.mention_count, 2);
    assert!(entity.last_seen_ms >= entity.first_seen_ms);
}

#[test]
fn conversation_memory_creation() {
    let session = SessionId::new();
    let messages = vec![Message::user("Hello"), Message::assistant("Hi! How can I help?")];

    let conv = ConversationMemory::new(session, messages)
        .with_summary("A greeting exchange")
        .with_topics(vec!["greeting", "introduction"]);

    assert_eq!(conv.messages.len(), 2);
    assert_eq!(conv.topics.len(), 2);
    assert!(conv.summary.is_some());
}

#[test]
fn text_content_generation() {
    let session = SessionId::new();
    let messages = vec![Message::user("What's the weather?"), Message::assistant("It's sunny today!")];

    let conv = ConversationMemory::new(session, messages).with_summary("Weather inquiry");

    let text = conv.text_content();
    assert!(text.contains("Weather inquiry"));
    assert!(text.contains("user: What's the weather?"));
    assert!(text.contains("assistant: It's sunny today!"));
    assert_eq!(
        text,
        "Summary: Weather inquiry\nuser: What's the weather?\nassistant: It's sunny today!"
    );
}

#[test]
fn message_constructors_set_roles() {
    assert_eq!(Message::system("s").role, MessageRole::System);
    assert_eq!(Message::user("u").with_name("ann").name, Some("ann".to_string()));
    assert_eq!(MessageRole::Tool.name(), "tool");
    assert_eq!(MessageRole::Function.name(), "function");
}

#[test]
fn observation_memory_creation() {
    let obs = ObservationMemory::new("User prefers dark mode")
        .with_category("preference")
        .with_subject("user interface")
        .verified();

    assert!(obs.verified);
    assert_eq!(obs.category, Some("preference".to_string()));
    assert_eq!(
        obs.text_content(),
        "Observation: User prefers dark mode\nCategory: preference\nSubject: user interface"
    );
}

#[test]
fn event_text_content_conversation_message_is_clean() {
    let text = event_text(
        "conversation_message",
        "[Speaker: Angela] 8 May | I love pizza",
        &vec![],
        &None,
        &None,
    );
    assert!(!text.contains("Event:"));
    assert!(text.starts_with("[Speaker: Angela] 8 May | I love pizza"));
}

#[test]
fn event_text_content_other_type_has_prefix() {
    let text = event_text(
        "meeting",
        "Team standup meeting",
        &vec!["Alice".to_string(), "Bob".to_string()],
        &Some("Conference Room A".to_string()),
        &Some("Discussed sprint goals".to_string()),
    );
    assert!(text.starts_with("Event: meeting - Team standup meeting"));
    assert_eq!(
        text,
        "Event: meeting - Team standup meeting\nParticipants: Alice, Bob\nLocation: Conference Room A\nOutcome: Discussed sprint goals"
    );
}

#[test]
fn workflow_text_lists_numbered_steps() {
    let steps = vec![
        StepDefinition::new("build", "Build the application", "npm build"),
        StepDefinition::new("test", "Run tests", "npm test"),
        StepDefinition::new("deploy", "Deploy to server", "kubectl apply"),
    ];
    let text = workflow_text(
        "deploy",
        "Deploy application to production",
        &vec!["deploy command".to_string(), "CI/CD pipeline".to_string()],
        &steps,
        &vec![WorkflowIO::required("version")],
        &vec![WorkflowIO::required("deployment_url")],
    );
    assert_eq!(
        text,
        "Workflow: deploy\nDescription: Deploy application to production\nTriggers: deploy command, CI/CD pipeline\nSteps:\n  1. build - Build the application\n  2. test - Run tests\n  3. deploy - Deploy to server\nInputs: version\nOutputs: deployment_url"
    );
}

#[test]
fn step_and_io_builders() {
    let step = StepDefinition::new("a", "b", "c")
        .with_parameter("x", "1")
        .with_parameter("x", "2")
        .with_condition("ready")
        .optional()
        .with_retries(3);
    assert_eq!(step.parameters, vec![("x".to_string(), "2".to_string())]);
    assert_eq!(step.condition, Some("ready".to_string()));
    assert!(step.optional);
    assert_eq!(step.retry_count, 3);
    let io = WorkflowIO::optional("limit").with_description("max").with_type("usize").with_default("10");
    assert!(!io.required);
    assert_eq!(io.default, Some("10".to_string()));
}

#[test]
fn skill_text_shows_examples() {
    let text = skill_text(
        "code_review",
        "Review code for issues",
        &Some("development".to_string()),
        &Some("When asked to review code".to_string()),
        &vec![SkillExample::new("Review this function", "Found 2 issues: ...")],
        &vec![],
    );
    assert_eq!(
        text,
        "Skill: code_review\nDescription: Review code for issues\nCategory: development\nInvocation: When asked to review code\nExamples:\n  - Input: Review this function\n    Output: Found 2 issues: ..."
    );
    let ex = SkillExample::new("i", "o");
    assert!(ex.success);
    assert!(ex.context.is_none());
}

#[test]
fn pattern_text_and_observation_window() {
    let text = pattern_text(
        "greeting",
        PatternType::Conversation,
        "User greeting pattern",
        &vec!["hello".to_string(), "hi".to_string(), "good morning".to_string()],
        &Some("Respond with a friendly greeting".to_string()),
    );
    assert_eq!(
        text,
        "Pattern: greeting (conversation)\nDescription: User greeting pattern\nIndicators: hello, hi, good morning\nTypical response: Respond with a friendly greeting"
    );
    let mut observations = Vec::new();
    for i in 0..(MAX_PATTERN_OBSERVATIONS + 5) {
        add_observation(&mut observations, PatternObservation::new(&format!("ctx {}", i), i % 2 == 0));
    }
    assert_eq!(observations.len(), MAX_PATTERN_OBSERVATIONS);
    assert_eq!(observations[0].context, "ctx 5");
    assert_eq!(observations[MAX_PATTERN_OBSERVATIONS - 1].context, "ctx 104");
    assert_eq!(PatternType::UserBehavior.name(), "user_behavior");
}

#[test]
fn case_memory_text_content() {
    let text = case_text("fix bug", "check logs", "bug fixed", true, &Some("debugging".to_string()), &vec![]);
    assert!(text.contains("Problem: fix bug"));
    assert!(text.contains("Plan: check logs"));
    assert!(text.contains("Outcome: bug fixed"));
    assert!(text.contains("Result: success"));
    assert!(text.contains("Domain: debugging"));
    let failed = case_text("p", "pl", "o", false, &None, &vec!["a".to_string(), "b".to_string()]);
    assert_eq!(failed, "Problem: p\nPlan: pl\nOutcome: o\nResult: failure\nFeatures: a, b");
}

#[test]
fn agent_state_texts() {
    assert_eq!(
        goal_text(
            "Complete project",
            GoalStatus::Active,
            "50",
            &vec!["All tasks done".to_string()],
            &None
        ),
        "Goal: Complete project\nStatus: Active\nProgress: 50%\nCriteria: All tasks done"
    );
    assert_eq!(
        task_text(
            "Write tests",
            TaskStatus::InProgress,
            &Some("unit tests".to_string()),
            &vec![],
            &None
        ),
        "Task: Write tests\nStatus: InProgress\nDescription: unit tests"
    );
    assert_eq!(
        working_memory_text(WorkingMemoryType::TemporaryFact, "x = 1", &Some("calc".to_string())),
        "Working Memory (TemporaryFact): x = 1\nSource: calc"
    );
}

#[test]
fn task_dependencies() {
    let a = MemoryId::from_u128(1);
    let b = MemoryId::from_u128(2);
    assert!(dependencies_met(&vec![a, b], &vec![b, a]));
    assert!(!dependencies_met(&vec![a, b], &vec![a]));
    assert!(dependencies_met(&vec![], &vec![]));
}

#[test]
fn memory_type_names_round_trip() {
    for c in [
        MemoryCategory::Episodic,
        MemoryCategory::Semantic,
        MemoryCategory::Procedural,
        MemoryCategory::AgentState,
    ] {
        for t in MemoryType::all_in_category(c) {
            assert_eq!(t.category(), c);
            assert_eq!(MemoryType::from_name(t.name()), Some(t));
        }
    }
    assert_eq!(MemoryType::all_in_category(MemoryCategory::Semantic).len(), 4);
    assert_eq!(MemoryType::from_name("semantic"), None);
    assert_eq!(MemoryType::AgentStateWorkingMemory.name(), "agent_state_working_memory");
    assert_eq!(MemoryCategory::AgentState.name(), "agent_state");
}

#[test]
fn decimal_text_values() {
    assert_eq!(decimal_text(0), "0");
    assert_eq!(decimal_text(7), "7");
    assert_eq!(decimal_text(10), "10");
    assert_eq!(decimal_text(1234567), "1234567");
    assert_eq!(decimal_text(usize::MAX), usize::MAX.to_string());
}
