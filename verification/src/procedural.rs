//! Procedural memory content: workflow steps and their inputs/outputs,
//! skills, patterns and experience cases, with the text each kind of
//! procedural memory is embedded and indexed by.

use vstd::prelude::*;

use crate::clock::now_millis;
use crate::entries::{distinct_keys, lookup, set_entry};
use crate::memory::MemoryCommon;
use crate::semantic::{line_of, list_line, push_line, push_list_line, push_optional_line};
use crate::text::{decimal, decimal_text, extend_owned, join, joined, opt_text, owned, texts};

verus! {

/// A step in a workflow.
#[derive(Debug, Clone)]
pub struct StepDefinition {
    /// Name of the step
    pub name: String,
    /// Description of what this step does
    pub description: String,
    /// Action to take (could be tool name, function, etc.)
    pub action: String,
    /// Parameters for the action, values as JSON text, one entry per key
    pub parameters: Vec<(String, String)>,
    /// Condition for executing this step (if any)
    pub condition: Option<String>,
    /// Step to go to on success (default: next)
    pub on_success: Option<String>,
    /// Step to go to on failure
    pub on_failure: Option<String>,
    /// Whether this step is optional
    pub optional: bool,
    /// Retry configuration
    pub retry_count: u32,
}

impl StepDefinition {
    /// Create a new step.
    pub fn new(name: &str, description: &str, action: &str) -> (r: Self)
        ensures
            r.name@ == name@,
            r.description@ == description@,
            r.action@ == action@,
            r.parameters@.len() == 0,
            r.condition is None,
            r.on_success is None,
            r.on_failure is None,
            !r.optional,
            r.retry_count == 0,
    {
        StepDefinition {
            name: owned(name),
            description: owned(description),
            action: owned(action),
            parameters: Vec::new(),
            condition: None,
            on_success: None,
            on_failure: None,
            optional: false,
            retry_count: 0,
        }
    }

    /// Add a parameter (its value as JSON text); a key that is already
    /// present gets the new value.
    pub fn with_parameter(self, key: &str, value: &str) -> (r: Self)
        ensures
            r == (StepDefinition { parameters: r.parameters, ..self }),
            forall|k: Seq<char>|
                lookup(r.parameters@, k) == (if k == key@ {
                    Some(value@)
                } else {
                    lookup(self.parameters@, k)
                }),
            distinct_keys(self.parameters@) ==> distinct_keys(r.parameters@),
    {
        let mut s = self;
        set_entry(&mut s.parameters, owned(key), owned(value));
        s
    }

    /// Set condition.
    pub fn with_condition(self, condition: &str) -> (r: Self)
        ensures
            r == (StepDefinition { condition: r.condition, ..self }),
            opt_text(r.condition) == Some(condition@),
    {
        StepDefinition { condition: Some(owned(condition)), ..self }
    }

    /// Mark as optional.
    pub fn optional(self) -> (r: Self)
        ensures
            r == (StepDefinition { optional: true, ..self }),
    {
        StepDefinition { optional: true, ..self }
    }

    /// Set retry count.
    pub fn with_retries(self, count: u32) -> (r: Self)
        ensures
            r == (StepDefinition { retry_count: count, ..self }),
    {
        StepDefinition { retry_count: count, ..self }
    }
}

/// Input or output definition for a workflow.
#[derive(Debug, Clone)]
pub struct WorkflowIO {
    /// Name of the input/output
    pub name: String,
    /// Description
    pub description: Option<String>,
    /// Type hint
    pub type_hint: Option<String>,
    /// Whether this is required
    pub required: bool,
    /// Default value as JSON text
    pub default: Option<String>,
}

impl WorkflowIO {
    /// Create a new required input/output.
    pub fn required(name: &str) -> (r: Self)
        ensures
            r.name@ == name@,
            r.description is None,
            r.type_hint is None,
            r.required,
            r.default is None,
    {
        WorkflowIO { name: owned(name), description: None, type_hint: None, required: true, default: None }
    }

    /// Create a new optional input/output.
    pub fn optional(name: &str) -> (r: Self)
        ensures
            r.name@ == name@,
            r.description is None,
            r.type_hint is None,
            !r.required,
            r.default is None,
    {
        WorkflowIO { name: owned(name), description: None, type_hint: None, required: false, default: None }
    }

    /// Set description.
    pub fn with_description(self, desc: &str) -> (r: Self)
        ensures
            r == (WorkflowIO { description: r.description, ..self }),
            opt_text(r.description) == Some(desc@),
    {
        WorkflowIO { description: Some(owned(desc)), ..self }
    }

    /// Set type hint.
    pub fn with_type(self, type_hint: &str) -> (r: Self)
        ensures
            r == (WorkflowIO { type_hint: r.type_hint, ..self }),
            opt_text(r.type_hint) == Some(type_hint@),
    {
        WorkflowIO { type_hint: Some(owned(type_hint)), ..self }
    }

    /// Set default value (as JSON text).
    pub fn with_default(self, default: &str) -> (r: Self)
        ensures
            r == (WorkflowIO { default: r.default, ..self }),
            opt_text(r.default) == Some(default@),
    {
        WorkflowIO { default: Some(owned(default)), ..self }
    }
}

/// The line for the step at position `i` (counted from zero):
/// "  N. NAME - DESCRIPTION" with N = i + 1.
pub open spec fn step_line(i: int, s: StepDefinition) -> Seq<char> {
    "  "@ + decimal((i + 1) as nat) + ". "@ + s.name@ + " - "@ + s.description@
}

/// The names of a list of inputs/outputs.
pub open spec fn io_names(v: Seq<WorkflowIO>) -> Seq<Seq<char>> {
    v.map_values(|io: WorkflowIO| io.name@)
}

/// A labelled comma-separated line of names, present only for a non-empty list.
pub open spec fn names_line(label: Seq<char>, v: Seq<WorkflowIO>) -> Seq<Seq<char>> {
    if v.len() > 0 {
        seq![label + joined(io_names(v), ", "@)]
    } else {
        Seq::empty()
    }
}

/// The lines describing a workflow.
pub open spec fn workflow_lines(
    name: Seq<char>,
    description: Seq<char>,
    triggers: Seq<String>,
    steps: Seq<StepDefinition>,
    inputs: Seq<WorkflowIO>,
    outputs: Seq<WorkflowIO>,
) -> Seq<Seq<char>> {
    seq!["Workflow: "@ + name, "Description: "@ + description] + list_line("Triggers: "@, triggers)
        + (if steps.len() > 0 {
        seq!["Steps:"@] + steps.map(|i: int, s: StepDefinition| step_line(i, s))
    } else {
        Seq::empty()
    }) + names_line("Inputs: "@, inputs) + names_line("Outputs: "@, outputs)
}

/// Push the names line for a list of inputs/outputs.
fn push_names_line(parts: &mut Vec<String>, label: &str, v: &Vec<WorkflowIO>)
    ensures
        texts(final(parts)@) == texts(old(parts)@) + names_line(label@, v@),
{
    let ghost before = texts(parts@);
    if v.len() > 0 {
        let mut names: Vec<String> = Vec::new();
        let mut i: usize = 0;
        while i < v.len()
            invariant
                i <= v@.len(),
                texts(names@) == io_names(v@.take(i as int)),
            decreases v.len() - i,
        {
            names.push(v[i].name.clone());
            assert(io_names(v@.take(i as int + 1)) =~= io_names(v@.take(i as int)).push(v@[i as int].name@));
            assert(texts(names@) =~= io_names(v@.take(i as int + 1)));
            i += 1;
        }
        assert(v@.take(v@.len() as int) =~= v@);
        let mut line = owned(label);
        let list = join(&names, ", ");
        line.append(list.as_str());
        parts.push(line);
    }
    assert(texts(parts@) =~= before + names_line(label@, v@));
}

/// Text content of a workflow memory, from the fields it shows.
pub fn workflow_text(
    name: &str,
    description: &str,
    triggers: &Vec<String>,
    steps: &Vec<StepDefinition>,
    inputs: &Vec<WorkflowIO>,
    outputs: &Vec<WorkflowIO>,
) -> (r: String)
    requires
        steps@.len() < usize::MAX,
    ensures
        r@ == joined(
            workflow_lines(name@, description@, triggers@, steps@, inputs@, outputs@),
            "\n"@,
        ),
{
    let mut parts: Vec<String> = Vec::new();
    let mut first = owned("Workflow: ");
    first.append(name);
    parts.push(first);
    let mut second = owned("Description: ");
    second.append(description);
    parts.push(second);
    push_list_line(&mut parts, "Triggers: ", triggers);
    let ghost head = texts(parts@);
    if steps.len() > 0 {
        parts.push(owned("Steps:"));
        let mut i: usize = 0;
        while i < steps.len()
            invariant
                i <= steps@.len() < usize::MAX,
                texts(parts@) == head + seq!["Steps:"@] + steps@.take(i as int).map(
                    |j: int, s: StepDefinition| step_line(j, s),
                ),
            decreases steps.len() - i,
        {
            let step = &steps[i];
            let mut line = owned("  ");
            let number = decimal_text(i + 1);
            line.append(number.as_str());
            line.append(". ");
            line.append(step.name.as_str());
            line.append(" - ");
            line.append(step.description.as_str());
            let ghost before = parts@;
            parts.push(line);
            assert(texts(parts@) =~= texts(before).push(step_line(i as int, steps@[i as int])));
            assert(steps@.take(i as int + 1).map(|j: int, s: StepDefinition| step_line(j, s))
                =~= steps@.take(i as int).map(|j: int, s: StepDefinition| step_line(j, s)).push(
                step_line(i as int, steps@[i as int]),
            ));
            i += 1;
        }
        assert(steps@.take(steps@.len() as int) =~= steps@);
    }
    push_names_line(&mut parts, "Inputs: ", inputs);
    push_names_line(&mut parts, "Outputs: ", outputs);
    assert(texts(parts@) =~= workflow_lines(
        name@,
        description@,
        triggers@,
        steps@,
        inputs@,
        outputs@,
    ));
    join(&parts, "\n")
}

/// An example of skill usage.
#[derive(Debug, Clone)]
pub struct SkillExample {
    /// Input that triggered the skill
    pub input: String,
    /// Output produced
    pub output: String,
    /// Context
    pub context: Option<String>,
    /// Whether this was successful
    pub success: bool,
}

impl SkillExample {
    /// Create a new, successful example.
    pub fn new(input: &str, output: &str) -> (r: Self)
        ensures
            r.input@ == input@,
            r.output@ == output@,
            r.context is None,
            r.success,
    {
        SkillExample { input: owned(input), output: owned(output), context: None, success: true }
    }
}

/// The two lines showing a skill example.
pub open spec fn example_lines(e: SkillExample) -> Seq<Seq<char>> {
    seq!["  - Input: "@ + e.input@, "    Output: "@ + e.output@]
}

/// The lines showing all examples, in order.
pub open spec fn examples_lines(es: Seq<SkillExample>) -> Seq<Seq<char>>
    decreases es.len(),
{
    if es.len() == 0 {
        Seq::empty()
    } else {
        examples_lines(es.drop_last()) + example_lines(es.last())
    }
}

/// The lines describing a skill.
pub open spec fn skill_lines(
    name: Seq<char>,
    description: Seq<char>,
    category: Option<String>,
    invocation: Option<String>,
    examples: Seq<SkillExample>,
    prerequisites: Seq<String>,
) -> Seq<Seq<char>> {
    seq!["Skill: "@ + name, "Description: "@ + description] + line_of(category, "Category: "@)
        + line_of(invocation, "Invocation: "@) + (if examples.len() > 0 {
        seq!["Examples:"@] + examples_lines(examples)
    } else {
        Seq::empty()
    }) + list_line("Prerequisites: "@, prerequisites)
}

/// Text content of a skill memory, from the fields it shows.
pub fn skill_text(
    name: &str,
    description: &str,
    category: &Option<String>,
    invocation: &Option<String>,
    examples: &Vec<SkillExample>,
    prerequisites: &Vec<String>,
) -> (r: String)
    ensures
        r@ == joined(
            skill_lines(name@, description@, *category, *invocation, examples@, prerequisites@),
            "\n"@,
        ),
{
    let mut parts: Vec<String> = Vec::new();
    let mut first = owned("Skill: ");
    first.append(name);
    parts.push(first);
    let mut second = owned("Description: ");
    second.append(description);
    parts.push(second);
    push_optional_line(&mut parts, "Category: ", category);
    push_optional_line(&mut parts, "Invocation: ", invocation);
    let ghost head = texts(parts@);
    if examples.len() > 0 {
        parts.push(owned("Examples:"));
        let mut i: usize = 0;
        while i < examples.len()
            invariant
                i <= examples@.len(),
                texts(parts@) == head + seq!["Examples:"@] + examples_lines(
                    examples@.take(i as int),
                ),
            decreases examples.len() - i,
        {
            let ghost before = texts(parts@);
            push_line(&mut parts, "  - Input: ", &examples[i].input);
            push_line(&mut parts, "    Output: ", &examples[i].output);
            assert(examples@.take(i as int + 1).drop_last() =~= examples@.take(i as int));
            assert(texts(parts@) =~= before + example_lines(examples@[i as int]));
            i += 1;
        }
        assert(examples@.take(examples@.len() as int) =~= examples@);
    }
    push_list_line(&mut parts, "Prerequisites: ", prerequisites);
    assert(texts(parts@) =~= skill_lines(
        name@,
        description@,
        *category,
        *invocation,
        examples@,
        prerequisites@,
    ));
    join(&parts, "\n")
}

/// Type of pattern.
#[derive(Debug, Clone, Copy, PartialEq, Eq, Structural)]
pub enum PatternType {
    /// User behavior pattern
    UserBehavior,
    /// Conversation pattern
    Conversation,
    /// Error/failure pattern
    Error,
    /// Success pattern
    Success,
    /// Temporal pattern (time-based)
    Temporal,
    /// Contextual pattern
    Contextual,
    /// Other
    Other,
}

/// The snake_case name of a pattern type.
pub open spec fn pattern_type_name(t: PatternType) -> Seq<char> {
    match t {
        PatternType::UserBehavior => "user_behavior"@,
        PatternType::Conversation => "conversation"@,
        PatternType::Error => "error"@,
        PatternType::Success => "success"@,
        PatternType::Temporal => "temporal"@,
        PatternType::Contextual => "contextual"@,
        PatternType::Other => "other"@,
    }
}

impl PatternType {
    /// The snake_case name of this pattern type.
    pub fn name(&self) -> (r: &'static str)
        ensures
            r@ == pattern_type_name(*self),
    {
        match self {
            PatternType::UserBehavior => "user_behavior",
            PatternType::Conversation => "conversation",
            PatternType::Error => "error",
            PatternType::Success => "success",
            PatternType::Temporal => "temporal",
            PatternType::Contextual => "contextual",
            PatternType::Other => "other",
        }
    }
}

/// The lines describing a pattern.
pub open spec fn pattern_lines(
    name: Seq<char>,
    pattern_type: PatternType,
    description: Seq<char>,
    indicators: Seq<String>,
    typical_response: Option<String>,
) -> Seq<Seq<char>> {
    seq![
        "Pattern: "@ + name + " ("@ + pattern_type_name(pattern_type) + ")"@,
        "Description: "@ + description,
    ] + list_line("Indicators: "@, indicators) + line_of(typical_response, "Typical response: "@)
}

/// Text content of a pattern memory, from the fields it shows.
pub fn pattern_text(
    name: &str,
    pattern_type: PatternType,
    description: &str,
    indicators: &Vec<String>,
    typical_response: &Option<String>,
) -> (r: String)
    ensures
        r@ == joined(
            pattern_lines(name@, pattern_type, description@, indicators@, *typical_response),
            "\n"@,
        ),
{
    let mut parts: Vec<String> = Vec::new();
    let mut first = owned("Pattern: ");
    first.append(name);
    first.append(" (");
    first.append(pattern_type.name());
    first.append(")");
    parts.push(first);
    let mut second = owned("Description: ");
    second.append(description);
    parts.push(second);
    push_list_line(&mut parts, "Indicators: ", indicators);
    push_optional_line(&mut parts, "Typical response: ", typical_response);
    assert(texts(parts@) =~= pattern_lines(
        name@,
        pattern_type,
        description@,
        indicators@,
        *typical_response,
    ));
    join(&parts, "\n")
}

/// An observation of a pattern.
#[derive(Debug, Clone)]
pub struct PatternObservation {
    /// When the pattern was observed, in milliseconds since the Unix epoch
    pub observed_at_ms: i64,
    /// Context of the observation
    pub context: String,
    /// Whether the pattern prediction was correct
    pub correct: bool,
}

impl PatternObservation {
    /// Create a new observation, made now.
    pub fn new(context: &str, correct: bool) -> (r: Self)
        ensures
            r.context@ == context@,
            r.correct == correct,
    {
        PatternObservation { observed_at_ms: now_millis(), context: owned(context), correct }
    }
}

/// The most observations a pattern keeps.
pub const MAX_PATTERN_OBSERVATIONS: usize = 100;

/// The most recent observations after adding one: the new list with the
/// oldest entry dropped when it grew past the limit.
pub open spec fn observations_after(
    old_list: Seq<PatternObservation>,
    o: PatternObservation,
) -> Seq<PatternObservation> {
    let grown = old_list.push(o);
    if grown.len() > MAX_PATTERN_OBSERVATIONS {
        grown.drop_first()
    } else {
        grown
    }
}

/// Add an observation, keeping only the most recent ones.
pub fn add_observation(observations: &mut Vec<PatternObservation>, observation: PatternObservation)
    ensures
        final(observations)@ == observations_after(old(observations)@, observation),
{
    observations.push(observation);
    if observations.len() > MAX_PATTERN_OBSERVATIONS {
        observations.remove(0);
        assert(final(observations)@ =~= observations_after(old(observations)@, observation));
    }
}

/// The lines describing an experience case.
pub open spec fn case_lines(
    problem: Seq<char>,
    plan: Seq<char>,
    outcome: Seq<char>,
    positive: bool,
    domain: Option<String>,
    features: Seq<String>,
) -> Seq<Seq<char>> {
    seq![
        "Problem: "@ + problem,
        "Plan: "@ + plan,
        "Outcome: "@ + outcome,
        "Result: "@ + (if positive {
            "success"@
        } else {
            "failure"@
        }),
    ] + line_of(domain, "Domain: "@) + list_line("Features: "@, features)
}

/// Text content of an experience case, from the fields it shows; `positive`
/// tells whether the case counts as a success.
pub fn case_text(
    problem: &str,
    plan: &str,
    outcome: &str,
    positive: bool,
    domain: &Option<String>,
    features: &Vec<String>,
) -> (r: String)
    ensures
        r@ == joined(case_lines(problem@, plan@, outcome@, positive, *domain, features@), "\n"@),
{
    let mut parts: Vec<String> = Vec::new();
    let mut l1 = owned("Problem: ");
    l1.append(problem);
    parts.push(l1);
    let mut l2 = owned("Plan: ");
    l2.append(plan);
    parts.push(l2);
    let mut l3 = owned("Outcome: ");
    l3.append(outcome);
    parts.push(l3);
    let mut l4 = owned("Result: ");
    l4.append(if positive {
        "success"
    } else {
        "failure"
    });
    parts.push(l4);
    push_optional_line(&mut parts, "Domain: ", domain);
    push_list_line(&mut parts, "Features: ", features);
    assert(texts(parts@) =~= case_lines(problem@, plan@, outcome@, positive, *domain, features@));
    join(&parts, "\n")
}

/// A multi-step workflow or process.
#[derive(Debug, Clone)]
pub struct WorkflowMemory {
    /// Name of the workflow
    pub name: String,
    /// Description of what it accomplishes
    pub description: String,
    /// Ordered steps
    pub steps: Vec<StepDefinition>,
    /// Triggers that should invoke this workflow
    pub triggers: Vec<String>,
    /// Required inputs
    pub inputs: Vec<WorkflowIO>,
    /// Expected outputs
    pub outputs: Vec<WorkflowIO>,
    /// Preconditions
    pub preconditions: Vec<String>,
    /// Postconditions
    pub postconditions: Vec<String>,
    /// Success rate in [0.0, 1.0] (an `f64` bit pattern)
    pub success_rate: Option<u64>,
    /// Number of times executed
    pub execution_count: u32,
    /// Average execution time, in milliseconds
    pub avg_duration_ms: Option<i64>,
}

impl WorkflowMemory {
    /// Create a new workflow with no steps and no executions.
    pub fn new(name: &str, description: &str) -> (r: Self)
        ensures
            r.name@ == name@,
            r.description@ == description@,
            r.steps@.len() == 0,
            r.triggers@.len() == 0,
            r.inputs@.len() == 0,
            r.outputs@.len() == 0,
            r.preconditions@.len() == 0,
            r.postconditions@.len() == 0,
            r.success_rate is None,
            r.execution_count == 0,
            r.avg_duration_ms is None,
    {
        WorkflowMemory {
            name: owned(name),
            description: owned(description),
            steps: Vec::new(),
            triggers: Vec::new(),
            inputs: Vec::new(),
            outputs: Vec::new(),
            preconditions: Vec::new(),
            postconditions: Vec::new(),
            success_rate: None,
            execution_count: 0,
            avg_duration_ms: None,
        }
    }

    /// Add a step.
    pub fn with_step(self, step: StepDefinition) -> (r: Self)
        ensures
            r == (WorkflowMemory { steps: r.steps, ..self }),
            r.steps@ == self.steps@.push(step),
    {
        let mut steps = self.steps;
        steps.push(step);
        WorkflowMemory { steps, ..self }
    }

    /// Add steps.
    pub fn with_steps(self, steps: Vec<StepDefinition>) -> (r: Self)
        ensures
            r == (WorkflowMemory { steps: r.steps, ..self }),
            r.steps@ == self.steps@ + steps@,
    {
        let mut all = self.steps;
        let mut more = steps;
        all.append(&mut more);
        WorkflowMemory { steps: all, ..self }
    }

    /// Add triggers.
    pub fn with_triggers(self, triggers: Vec<&str>) -> (r: Self)
        ensures
            r == (WorkflowMemory { triggers: r.triggers, ..self }),
            texts(r.triggers@) == texts(self.triggers@) + triggers@.map_values(|s: &str| s@),
    {
        let mut all = self.triggers;
        extend_owned(&mut all, &triggers);
        WorkflowMemory { triggers: all, ..self }
    }

    /// Add inputs.
    pub fn with_inputs(self, inputs: Vec<WorkflowIO>) -> (r: Self)
        ensures
            r == (WorkflowMemory { inputs: r.inputs, ..self }),
            r.inputs@ == self.inputs@ + inputs@,
    {
        let mut all = self.inputs;
        let mut more = inputs;
        all.append(&mut more);
        WorkflowMemory { inputs: all, ..self }
    }

    /// Add outputs.
    pub fn with_outputs(self, outputs: Vec<WorkflowIO>) -> (r: Self)
        ensures
            r == (WorkflowMemory { outputs: r.outputs, ..self }),
            r.outputs@ == self.outputs@ + outputs@,
    {
        let mut all = self.outputs;
        let mut more = outputs;
        all.append(&mut more);
        WorkflowMemory { outputs: all, ..self }
    }

    /// Get text content for embedding.
    pub fn text_content(&self) -> (r: String)
        requires
            self.steps@.len() < usize::MAX,
        ensures
            r@ == joined(
                workflow_lines(
                    self.name@,
                    self.description@,
                    self.triggers@,
                    self.steps@,
                    self.inputs@,
                    self.outputs@,
                ),
                "\n"@,
            ),
    {
        workflow_text(&self.name, &self.description, &self.triggers, &self.steps, &self.inputs, &self.outputs)
    }
}

/// A learned skill or capability.
#[derive(Debug, Clone)]
pub struct SkillMemory {
    /// Name of the skill
    pub name: String,
    /// Description
    pub description: String,
    /// Category
    pub category: Option<String>,
    /// How to invoke or use
    pub invocation: Option<String>,
    /// Examples of usage
    pub examples: Vec<SkillExample>,
    /// Prerequisites
    pub prerequisites: Vec<String>,
    /// Proficiency in [0.0, 1.0] (an `f64` bit pattern)
    pub proficiency: u64,
    /// Times used
    pub usage_count: u32,
    /// When last used, in milliseconds since the Unix epoch
    pub last_used_ms: i64,
    /// Related skills
    pub related_skills: Vec<String>,
}

impl SkillMemory {
    /// Create a new skill of proficiency 0.5, last used now.
    pub fn new(name: &str, description: &str) -> (r: Self)
        ensures
            r.name@ == name@,
            r.description@ == description@,
            r.category is None,
            r.invocation is None,
            r.examples@.len() == 0,
            r.prerequisites@.len() == 0,
            r.proficiency == 0x3FE0_0000_0000_0000u64,
            r.usage_count == 0,
            r.last_used_ms >= 0,
            r.related_skills@.len() == 0,
    {
        SkillMemory {
            name: owned(name),
            description: owned(description),
            category: None,
            invocation: None,
            examples: Vec::new(),
            prerequisites: Vec::new(),
            proficiency: 0x3FE0_0000_0000_0000u64,
            usage_count: 0,
            last_used_ms: now_millis(),
            related_skills: Vec::new(),
        }
    }

    /// Set the category.
    pub fn with_category(self, category: &str) -> (r: Self)
        ensures
            r == (SkillMemory { category: r.category, ..self }),
            opt_text(r.category) == Some(category@),
    {
        SkillMemory { category: Some(owned(category)), ..self }
    }

    /// Set how the skill is invoked.
    pub fn with_invocation(self, invocation: &str) -> (r: Self)
        ensures
            r == (SkillMemory { invocation: r.invocation, ..self }),
            opt_text(r.invocation) == Some(invocation@),
    {
        SkillMemory { invocation: Some(owned(invocation)), ..self }
    }

    /// Add an example.
    pub fn with_example(self, example: SkillExample) -> (r: Self)
        ensures
            r == (SkillMemory { examples: r.examples, ..self }),
            r.examples@ == self.examples@.push(example),
    {
        let mut examples = self.examples;
        examples.push(example);
        SkillMemory { examples, ..self }
    }

    /// Get text content for embedding.
    pub fn text_content(&self) -> (r: String)
        ensures
            r@ == joined(
                skill_lines(
                    self.name@,
                    self.description@,
                    self.category,
                    self.invocation,
                    self.examples@,
                    self.prerequisites@,
                ),
                "\n"@,
            ),
    {
        skill_text(&self.name, &self.description, &self.category, &self.invocation, &self.examples, &self.prerequisites)
    }
}

/// A recognized pattern.
#[derive(Debug, Clone)]
pub struct PatternMemory {
    /// Name of the pattern
    pub name: String,
    /// Description
    pub description: String,
    /// Type of pattern
    pub pattern_type: PatternType,
    /// Indicators that suggest this pattern
    pub indicators: Vec<String>,
    /// Typical response to this pattern
    pub typical_response: Option<String>,
    /// Recognition accuracy in [0.0, 1.0] (an `f64` bit pattern)
    pub accuracy: u64,
    /// Times recognized
    pub recognition_count: u32,
    /// The most recent observations
    pub observations: Vec<PatternObservation>,
}

impl PatternMemory {
    /// Create a new pattern of accuracy 0.5, never recognized.
    pub fn new(name: &str, description: &str, pattern_type: PatternType) -> (r: Self)
        ensures
            r.name@ == name@,
            r.description@ == description@,
            r.pattern_type == pattern_type,
            r.indicators@.len() == 0,
            r.typical_response is None,
            r.accuracy == 0x3FE0_0000_0000_0000u64,
            r.recognition_count == 0,
            r.observations@.len() == 0,
    {
        PatternMemory {
            name: owned(name),
            description: owned(description),
            pattern_type,
            indicators: Vec::new(),
            typical_response: None,
            accuracy: 0x3FE0_0000_0000_0000u64,
            recognition_count: 0,
            observations: Vec::new(),
        }
    }

    /// Add indicators.
    pub fn with_indicators(self, indicators: Vec<&str>) -> (r: Self)
        ensures
            r == (PatternMemory { indicators: r.indicators, ..self }),
            texts(r.indicators@) == texts(self.indicators@) + indicators@.map_values(
                |s: &str| s@,
            ),
    {
        let mut all = self.indicators;
        extend_owned(&mut all, &indicators);
        PatternMemory { indicators: all, ..self }
    }

    /// Set the typical response.
    pub fn with_response(self, response: &str) -> (r: Self)
        ensures
            r == (PatternMemory { typical_response: r.typical_response, ..self }),
            opt_text(r.typical_response) == Some(response@),
    {
        PatternMemory { typical_response: Some(owned(response)), ..self }
    }

    /// Add an observation, keeping only the most recent ones.
    pub fn add_observation(&mut self, observation: PatternObservation)
        ensures
            *final(self) == (PatternMemory { observations: final(self).observations, ..*old(self) }),
            final(self).observations@ == observations_after(old(self).observations@, observation),
    {
        add_observation(&mut self.observations, observation);
    }

    /// Get text content for embedding.
    pub fn text_content(&self) -> (r: String)
        ensures
            r@ == joined(
                pattern_lines(
                    self.name@,
                    self.pattern_type,
                    self.description@,
                    self.indicators@,
                    self.typical_response,
                ),
                "\n"@,
            ),
    {
        pattern_text(&self.name, self.pattern_type, &self.description, &self.indicators, &self.typical_response)
    }
}

/// An experience case: a problem, the plan tried, and how it went.
#[derive(Debug, Clone)]
pub struct CaseMemory {
    /// The problem faced
    pub problem: String,
    /// The plan or approach taken
    pub plan: String,
    /// What happened
    pub outcome: String,
    /// Reward in [0.0, 1.0] (an `f64` bit pattern)
    pub reward: u64,
    /// Domain of the problem
    pub domain: Option<String>,
    /// Times retrieved
    pub retrieval_count: u32,
    /// When last retrieved, in milliseconds since the Unix epoch
    pub last_retrieved_ms: Option<i64>,
    /// Features of the problem
    pub problem_features: Vec<String>,
    /// Whether the case has been validated
    pub validated: bool,
}

impl CaseMemory {
    /// Create a new case with a reward already clamped to [0.0, 1.0] (an
    /// `f64` bit pattern).
    pub fn new(problem: &str, plan: &str, outcome: &str, reward: u64) -> (r: Self)
        ensures
            r.problem@ == problem@,
            r.plan@ == plan@,
            r.outcome@ == outcome@,
            r.reward == reward,
            r.domain is None,
            r.retrieval_count == 0,
            r.last_retrieved_ms is None,
            r.problem_features@.len() == 0,
            !r.validated,
    {
        CaseMemory {
            problem: owned(problem),
            plan: owned(plan),
            outcome: owned(outcome),
            reward,
            domain: None,
            retrieval_count: 0,
            last_retrieved_ms: None,
            problem_features: Vec::new(),
            validated: false,
        }
    }

    /// Set the domain.
    pub fn with_domain(self, domain: &str) -> (r: Self)
        ensures
            r == (CaseMemory { domain: r.domain, ..self }),
            opt_text(r.domain) == Some(domain@),
    {
        CaseMemory { domain: Some(owned(domain)), ..self }
    }

    /// Add problem features.
    pub fn with_features(self, features: Vec<&str>) -> (r: Self)
        ensures
            r == (CaseMemory { problem_features: r.problem_features, ..self }),
            texts(r.problem_features@) == texts(self.problem_features@) + features@.map_values(
                |s: &str| s@,
            ),
    {
        let mut all = self.problem_features;
        extend_owned(&mut all, &features);
        CaseMemory { problem_features: all, ..self }
    }

    /// Mark as validated.
    pub fn validated(self) -> (r: Self)
        ensures
            r == (CaseMemory { validated: true, ..self }),
    {
        CaseMemory { validated: true, ..self }
    }

    /// Record a retrieval, made now.
    pub fn record_retrieval(&mut self)
        requires
            old(self).retrieval_count < u32::MAX,
        ensures
            *final(self) == (CaseMemory {
                retrieval_count: (old(self).retrieval_count + 1) as u32,
                last_retrieved_ms: final(self).last_retrieved_ms,
                ..*old(self)
            }),
            final(self).last_retrieved_ms matches Some(t) && t >= 0,
    {
        self.retrieval_count = self.retrieval_count + 1;
        self.last_retrieved_ms = Some(now_millis());
    }
}

/// Types of procedural content.
#[derive(Debug, Clone)]
pub enum ProceduralContent {
    /// A multi-step workflow
    Workflow(WorkflowMemory),
    /// A learned skill
    Skill(SkillMemory),
    /// A recognized pattern
    Pattern(PatternMemory),
    /// An experience case
    Case(CaseMemory),
}

/// Procedural memory containing how-to knowledge.
#[derive(Debug, Clone)]
pub struct ProceduralMemory {
    /// Common memory fields
    pub common: MemoryCommon,
    /// The specific procedural content
    pub content: ProceduralContent,
}

} // verus!
