//! Agent state content: goals, tasks and working memory items, with the
//! text each one is embedded and indexed by, and the task dependency rule.

use vstd::prelude::*;

use crate::clock::now_millis;
use crate::ids::MemoryId;
use crate::memory::MemoryCommon;
use crate::semantic::{line_of, list_line, push_list_line, push_optional_line};
use crate::text::{extend_owned, join, joined, opt_text, owned, texts};

verus! {

/// Status of a goal.
#[derive(Debug, Clone, Copy, PartialEq, Eq, Structural)]
pub enum GoalStatus {
    Active,
    Paused,
    Blocked,
    Completed,
    Failed,
    Abandoned,
}

/// The variant name of a goal status, as debug output shows it.
pub open spec fn goal_status_label(v: GoalStatus) -> Seq<char> {
    match v {
        GoalStatus::Active => "Active"@,
        GoalStatus::Paused => "Paused"@,
        GoalStatus::Blocked => "Blocked"@,
        GoalStatus::Completed => "Completed"@,
        GoalStatus::Failed => "Failed"@,
        GoalStatus::Abandoned => "Abandoned"@,
    }
}

impl GoalStatus {
    /// The variant name, as debug output shows it.
    pub fn label(&self) -> (r: &'static str)
        ensures
            r@ == goal_status_label(*self),
    {
        match self {
            GoalStatus::Active => "Active",
            GoalStatus::Paused => "Paused",
            GoalStatus::Blocked => "Blocked",
            GoalStatus::Completed => "Completed",
            GoalStatus::Failed => "Failed",
            GoalStatus::Abandoned => "Abandoned",
        }
    }
}

/// Status of a task.
#[derive(Debug, Clone, Copy, PartialEq, Eq, Structural)]
pub enum TaskStatus {
    Pending,
    InProgress,
    Blocked,
    Completed,
    Failed,
    Cancelled,
}

/// The variant name of a task status, as debug output shows it.
pub open spec fn task_status_label(v: TaskStatus) -> Seq<char> {
    match v {
        TaskStatus::Pending => "Pending"@,
        TaskStatus::InProgress => "InProgress"@,
        TaskStatus::Blocked => "Blocked"@,
        TaskStatus::Completed => "Completed"@,
        TaskStatus::Failed => "Failed"@,
        TaskStatus::Cancelled => "Cancelled"@,
    }
}

impl TaskStatus {
    /// The variant name, as debug output shows it.
    pub fn label(&self) -> (r: &'static str)
        ensures
            r@ == task_status_label(*self),
    {
        match self {
            TaskStatus::Pending => "Pending",
            TaskStatus::InProgress => "InProgress",
            TaskStatus::Blocked => "Blocked",
            TaskStatus::Completed => "Completed",
            TaskStatus::Failed => "Failed",
            TaskStatus::Cancelled => "Cancelled",
        }
    }
}

/// Type of working memory item.
#[derive(Debug, Clone, Copy, PartialEq, Eq, Structural)]
pub enum WorkingMemoryType {
    Context,
    Instruction,
    TemporaryFact,
    Reference,
    Scratchpad,
    Alert,
    SessionPreference,
}

/// The variant name of a working memory type, as debug output shows it.
pub open spec fn working_memory_type_label(v: WorkingMemoryType) -> Seq<char> {
    match v {
        WorkingMemoryType::Context => "Context"@,
        WorkingMemoryType::Instruction => "Instruction"@,
        WorkingMemoryType::TemporaryFact => "TemporaryFact"@,
        WorkingMemoryType::Reference => "Reference"@,
        WorkingMemoryType::Scratchpad => "Scratchpad"@,
        WorkingMemoryType::Alert => "Alert"@,
        WorkingMemoryType::SessionPreference => "SessionPreference"@,
    }
}

impl WorkingMemoryType {
    /// The variant name, as debug output shows it.
    pub fn label(&self) -> (r: &'static str)
        ensures
            r@ == working_memory_type_label(*self),
    {
        match self {
            WorkingMemoryType::Context => "Context",
            WorkingMemoryType::Instruction => "Instruction",
            WorkingMemoryType::TemporaryFact => "TemporaryFact",
            WorkingMemoryType::Reference => "Reference",
            WorkingMemoryType::Scratchpad => "Scratchpad",
            WorkingMemoryType::Alert => "Alert",
            WorkingMemoryType::SessionPreference => "SessionPreference",
        }
    }
}

/// The lines describing a goal; `progress_percent` is the progress already
/// written as a whole percentage.
pub open spec fn goal_lines(
    description: Seq<char>,
    status: GoalStatus,
    progress_percent: Seq<char>,
    success_criteria: Seq<String>,
    status_reason: Option<String>,
) -> Seq<Seq<char>> {
    seq![
        "Goal: "@ + description,
        "Status: "@ + goal_status_label(status),
        "Progress: "@ + progress_percent + "%"@,
    ] + list_line("Criteria: "@, success_criteria) + line_of(status_reason, "Note: "@)
}

/// Text content of a goal, from the fields it shows.
pub fn goal_text(
    description: &str,
    status: GoalStatus,
    progress_percent: &str,
    success_criteria: &Vec<String>,
    status_reason: &Option<String>,
) -> (r: String)
    ensures
        r@ == joined(
            goal_lines(description@, status, progress_percent@, success_criteria@, *status_reason),
            "\n"@,
        ),
{
    let mut parts: Vec<String> = Vec::new();
    let mut l1 = owned("Goal: ");
    l1.append(description);
    parts.push(l1);
    let mut l2 = owned("Status: ");
    l2.append(status.label());
    parts.push(l2);
    let mut l3 = owned("Progress: ");
    l3.append(progress_percent);
    l3.append("%");
    parts.push(l3);
    push_list_line(&mut parts, "Criteria: ", success_criteria);
    push_optional_line(&mut parts, "Note: ", status_reason);
    assert(texts(parts@) =~= goal_lines(
        description@,
        status,
        progress_percent@,
        success_criteria@,
        *status_reason,
    ));
    join(&parts, "\n")
}

/// The lines describing a task.
pub open spec fn task_lines(
    title: Seq<char>,
    status: TaskStatus,
    description: Option<String>,
    labels: Seq<String>,
    result: Option<String>,
) -> Seq<Seq<char>> {
    seq!["Task: "@ + title, "Status: "@ + task_status_label(status)] + line_of(
        description,
        "Description: "@,
    ) + list_line("Labels: "@, labels) + line_of(result, "Result: "@)
}

/// Text content of a task, from the fields it shows.
pub fn task_text(
    title: &str,
    status: TaskStatus,
    description: &Option<String>,
    labels: &Vec<String>,
    result: &Option<String>,
) -> (r: String)
    ensures
        r@ == joined(task_lines(title@, status, *description, labels@, *result), "\n"@),
{
    let mut parts: Vec<String> = Vec::new();
    let mut l1 = owned("Task: ");
    l1.append(title);
    parts.push(l1);
    let mut l2 = owned("Status: ");
    l2.append(status.label());
    parts.push(l2);
    push_optional_line(&mut parts, "Description: ", description);
    push_list_line(&mut parts, "Labels: ", labels);
    push_optional_line(&mut parts, "Result: ", result);
    assert(texts(parts@) =~= task_lines(title@, status, *description, labels@, *result));
    join(&parts, "\n")
}

/// Whether every dependency of a task is among the completed tasks.
pub fn dependencies_met(dependencies: &Vec<MemoryId>, completed_tasks: &Vec<MemoryId>) -> (r: bool)
    ensures
        r == forall|i: int| 0 <= i < dependencies@.len() ==> completed_tasks@.contains(
            #[trigger] dependencies@[i],
        ),
{
    let mut i: usize = 0;
    while i < dependencies.len()
        invariant
            i <= dependencies@.len(),
            forall|j: int| 0 <= j < i ==> completed_tasks@.contains(#[trigger] dependencies@[j]),
        decreases dependencies.len() - i,
    {
        let d = dependencies[i];
        let mut found = false;
        let mut k: usize = 0;
        while k < completed_tasks.len()
            invariant
                k <= completed_tasks@.len(),
                !found ==> forall|m: int| 0 <= m < k ==> completed_tasks@[m] != d,
                found ==> completed_tasks@.contains(d),
            decreases completed_tasks.len() - k,
        {
            if completed_tasks[k].0 == d.0 {
                found = true;
            }
            k += 1;
        }
        if !found {
            assert(!completed_tasks@.contains(dependencies@[i as int]));
            return false;
        }
        i += 1;
    }
    true
}

/// The lines describing a working memory item.
pub open spec fn working_memory_lines(
    item_type: WorkingMemoryType,
    content: Seq<char>,
    source: Option<String>,
) -> Seq<Seq<char>> {
    seq!["Working Memory ("@ + working_memory_type_label(item_type) + "): "@ + content] + line_of(
        source,
        "Source: "@,
    )
}

/// Text content of a working memory item, from the fields it shows.
pub fn working_memory_text(item_type: WorkingMemoryType, content: &str, source: &Option<String>) -> (r: String)
    ensures
        r@ == joined(working_memory_lines(item_type, content@, *source), "\n"@),
{
    let mut parts: Vec<String> = Vec::new();
    let mut l1 = owned("Working Memory (");
    l1.append(item_type.label());
    l1.append("): ");
    l1.append(content);
    parts.push(l1);
    push_optional_line(&mut parts, "Source: ", source);
    assert(texts(parts@) =~= working_memory_lines(item_type, content@, *source));
    join(&parts, "\n")
}

/// The `f64` bit pattern of 0.5.
pub const HALF_BITS: u64 = 0x3FE0_0000_0000_0000;

/// The `f64` bit pattern of 1.0.
pub const ONE_BITS: u64 = 0x3FF0_0000_0000_0000;

/// A goal the agent is working toward.
#[derive(Debug, Clone)]
pub struct Goal {
    /// Description of the goal
    pub description: String,
    /// Current status
    pub status: GoalStatus,
    /// Priority in [0.0, 1.0] (an `f64` bit pattern)
    pub priority: u64,
    /// Parent goal (for hierarchical goals)
    pub parent_goal: Option<MemoryId>,
    /// Sub-goals
    pub sub_goals: Vec<MemoryId>,
    /// Associated tasks
    pub tasks: Vec<MemoryId>,
    /// Success criteria
    pub success_criteria: Vec<String>,
    /// Progress in [0.0, 1.0] (an `f64` bit pattern)
    pub progress: u64,
    /// Deadline, in milliseconds since the Unix epoch
    pub deadline_ms: Option<i64>,
    /// When the goal was created, in milliseconds since the Unix epoch
    pub created_at_ms: i64,
    /// When the goal was completed, in milliseconds since the Unix epoch
    pub completed_at_ms: Option<i64>,
    /// Why the goal is blocked or failed
    pub status_reason: Option<String>,
}

impl Goal {
    /// Create a new active goal of priority 0.5 and no progress, made now.
    pub fn new(description: &str) -> (r: Self)
        ensures
            r.description@ == description@,
            r.status == GoalStatus::Active,
            r.priority == HALF_BITS,
            r.parent_goal is None,
            r.sub_goals@.len() == 0,
            r.tasks@.len() == 0,
            r.success_criteria@.len() == 0,
            r.progress == 0,
            r.deadline_ms is None,
            r.created_at_ms >= 0,
            r.completed_at_ms is None,
            r.status_reason is None,
    {
        Goal {
            description: owned(description),
            status: GoalStatus::Active,
            priority: HALF_BITS,
            parent_goal: None,
            sub_goals: Vec::new(),
            tasks: Vec::new(),
            success_criteria: Vec::new(),
            progress: 0,
            deadline_ms: None,
            created_at_ms: now_millis(),
            completed_at_ms: None,
            status_reason: None,
        }
    }

    /// Set the parent goal.
    pub fn with_parent(self, parent: MemoryId) -> (r: Self)
        ensures
            r == (Goal { parent_goal: Some(parent), ..self }),
    {
        Goal { parent_goal: Some(parent), ..self }
    }

    /// Add success criteria.
    pub fn with_criteria(self, criteria: Vec<&str>) -> (r: Self)
        ensures
            r == (Goal { success_criteria: r.success_criteria, ..self }),
            texts(r.success_criteria@) == texts(self.success_criteria@) + criteria@.map_values(
                |s: &str| s@,
            ),
    {
        let mut all = self.success_criteria;
        extend_owned(&mut all, &criteria);
        Goal { success_criteria: all, ..self }
    }

    /// Set the deadline, in milliseconds since the Unix epoch.
    pub fn with_deadline(self, deadline_ms: i64) -> (r: Self)
        ensures
            r == (Goal { deadline_ms: Some(deadline_ms), ..self }),
    {
        Goal { deadline_ms: Some(deadline_ms), ..self }
    }

    /// Add a sub-goal.
    pub fn add_sub_goal(&mut self, sub_goal_id: MemoryId)
        ensures
            *final(self) == (Goal { sub_goals: final(self).sub_goals, ..*old(self) }),
            final(self).sub_goals@ == old(self).sub_goals@.push(sub_goal_id),
    {
        self.sub_goals.push(sub_goal_id);
    }

    /// Add a task.
    pub fn add_task(&mut self, task_id: MemoryId)
        ensures
            *final(self) == (Goal { tasks: final(self).tasks, ..*old(self) }),
            final(self).tasks@ == old(self).tasks@.push(task_id),
    {
        self.tasks.push(task_id);
    }

    /// Mark as completed now, with full progress.
    pub fn complete(&mut self)
        ensures
            *final(self) == (Goal {
                status: GoalStatus::Completed,
                progress: ONE_BITS,
                completed_at_ms: final(self).completed_at_ms,
                ..*old(self)
            }),
            final(self).completed_at_ms matches Some(t) && t >= 0,
    {
        self.status = GoalStatus::Completed;
        self.progress = ONE_BITS;
        self.completed_at_ms = Some(now_millis());
    }

    /// Mark as blocked, for a reason.
    pub fn block(&mut self, reason: &str)
        ensures
            *final(self) == (Goal {
                status: GoalStatus::Blocked,
                status_reason: final(self).status_reason,
                ..*old(self)
            }),
            opt_text(final(self).status_reason) == Some(reason@),
    {
        self.status = GoalStatus::Blocked;
        self.status_reason = Some(owned(reason));
    }

    /// Mark as failed, for a reason.
    pub fn fail(&mut self, reason: &str)
        ensures
            *final(self) == (Goal {
                status: GoalStatus::Failed,
                status_reason: final(self).status_reason,
                ..*old(self)
            }),
            opt_text(final(self).status_reason) == Some(reason@),
    {
        self.status = GoalStatus::Failed;
        self.status_reason = Some(owned(reason));
    }

    /// Whether the goal is still active past its deadline.
    pub fn is_overdue(&self) -> (r: bool)
        ensures
            r ==> self.status == GoalStatus::Active && self.deadline_ms is Some,
            self.status == GoalStatus::Active && (self.deadline_ms matches Some(d) && d < 0) ==> r,
            exists|now_ms: int| now_ms >= 0 && r == #[trigger] goal_overdue_at(*self, now_ms),
    {
        let now = now_millis();
        let r = self.is_overdue_at(now);
        assert(r == goal_overdue_at(*self, now as int));
        r
    }

    /// Whether the goal is overdue when the clock reads `now_ms`: still
    /// active, and `now_ms` past its deadline.
    pub fn is_overdue_at(&self, now_ms: i64) -> (r: bool)
        ensures
            r == goal_overdue_at(*self, now_ms as int),
    {
        match self.deadline_ms {
            Some(deadline) => self.status == GoalStatus::Active && now_ms > deadline,
            None => false,
        }
    }
}

/// The whole minutes in a span of milliseconds, rounded toward zero.
pub open spec fn whole_minutes(elapsed_ms: int) -> int {
    if elapsed_ms >= 0 {
        elapsed_ms / 60_000
    } else {
        -((-elapsed_ms) / 60_000)
    }
}

/// A task to be completed.
#[derive(Debug, Clone)]
pub struct Task {
    /// Task title
    pub title: String,
    /// Detailed description
    pub description: Option<String>,
    /// Current status
    pub status: TaskStatus,
    /// Priority in [0.0, 1.0] (an `f64` bit pattern)
    pub priority: u64,
    /// Goal that the work serves
    pub goal_id: Option<MemoryId>,
    /// Tasks this depends on
    pub dependencies: Vec<MemoryId>,
    /// Tasks that depend on this
    pub blocking: Vec<MemoryId>,
    /// Due date, in milliseconds since the Unix epoch
    pub due_date_ms: Option<i64>,
    /// Estimated effort in minutes
    pub estimated_effort: Option<u32>,
    /// Actual effort in minutes
    pub actual_effort: Option<u32>,
    /// When created, in milliseconds since the Unix epoch
    pub created_at_ms: i64,
    /// When started, in milliseconds since the Unix epoch
    pub started_at_ms: Option<i64>,
    /// When completed, in milliseconds since the Unix epoch
    pub completed_at_ms: Option<i64>,
    /// Result or output
    pub result: Option<String>,
    /// Labels
    pub labels: Vec<String>,
}

impl Task {
    /// Create a new pending task of priority 0.5, made now.
    pub fn new(title: &str) -> (r: Self)
        ensures
            r.title@ == title@,
            r.description is None,
            r.status == TaskStatus::Pending,
            r.priority == HALF_BITS,
            r.goal_id is None,
            r.dependencies@.len() == 0,
            r.blocking@.len() == 0,
            r.due_date_ms is None,
            r.estimated_effort is None,
            r.actual_effort is None,
            r.created_at_ms >= 0,
            r.started_at_ms is None,
            r.completed_at_ms is None,
            r.result is None,
            r.labels@.len() == 0,
    {
        Task {
            title: owned(title),
            description: None,
            status: TaskStatus::Pending,
            priority: HALF_BITS,
            goal_id: None,
            dependencies: Vec::new(),
            blocking: Vec::new(),
            due_date_ms: None,
            estimated_effort: None,
            actual_effort: None,
            created_at_ms: now_millis(),
            started_at_ms: None,
            completed_at_ms: None,
            result: None,
            labels: Vec::new(),
        }
    }

    /// Set the description.
    pub fn with_description(self, description: &str) -> (r: Self)
        ensures
            r == (Task { description: r.description, ..self }),
            opt_text(r.description) == Some(description@),
    {
        Task { description: Some(owned(description)), ..self }
    }

    /// Set the goal.
    pub fn with_goal(self, goal_id: MemoryId) -> (r: Self)
        ensures
            r == (Task { goal_id: Some(goal_id), ..self }),
    {
        Task { goal_id: Some(goal_id), ..self }
    }

    /// Add a dependency.
    pub fn with_dependency(self, dep_id: MemoryId) -> (r: Self)
        ensures
            r == (Task { dependencies: r.dependencies, ..self }),
            r.dependencies@ == self.dependencies@.push(dep_id),
    {
        let mut dependencies = self.dependencies;
        dependencies.push(dep_id);
        Task { dependencies, ..self }
    }

    /// Set the due date, in milliseconds since the Unix epoch.
    pub fn with_due_date(self, due_ms: i64) -> (r: Self)
        ensures
            r == (Task { due_date_ms: Some(due_ms), ..self }),
    {
        Task { due_date_ms: Some(due_ms), ..self }
    }

    /// Set the estimated effort, in minutes.
    pub fn with_estimated_effort(self, minutes: u32) -> (r: Self)
        ensures
            r == (Task { estimated_effort: Some(minutes), ..self }),
    {
        Task { estimated_effort: Some(minutes), ..self }
    }

    /// Add labels.
    pub fn with_labels(self, labels: Vec<&str>) -> (r: Self)
        ensures
            r == (Task { labels: r.labels, ..self }),
            texts(r.labels@) == texts(self.labels@) + labels@.map_values(|s: &str| s@),
    {
        let mut all = self.labels;
        extend_owned(&mut all, &labels);
        Task { labels: all, ..self }
    }

    /// Start the task now.
    pub fn start(&mut self)
        ensures
            *final(self) == (Task {
                status: TaskStatus::InProgress,
                started_at_ms: final(self).started_at_ms,
                ..*old(self)
            }),
            final(self).started_at_ms matches Some(t) && t >= 0,
    {
        self.status = TaskStatus::InProgress;
        self.started_at_ms = Some(now_millis());
    }

    /// Complete the task now, with a result; a started task records the
    /// whole minutes since it started as its actual effort (cast to `u32`).
    pub fn complete(&mut self, result: Option<String>)
        ensures
            *final(self) == (Task {
                status: TaskStatus::Completed,
                completed_at_ms: final(self).completed_at_ms,
                result,
                actual_effort: final(self).actual_effort,
                ..*old(self)
            }),
            final(self).completed_at_ms matches Some(t) && t >= 0,
            old(self).started_at_ms is None ==> final(self).actual_effort == old(self).actual_effort,
            old(self).started_at_ms matches Some(s) ==> (final(self).completed_at_ms matches Some(c)
                && final(self).actual_effort == Some(whole_minutes(c - s) as u32)),
    {
        let now = now_millis();
        self.status = TaskStatus::Completed;
        self.completed_at_ms = Some(now);
        self.result = result;
        if let Some(started) = self.started_at_ms {
            let elapsed: i128 = (now as i128) - (started as i128);
            let minutes: i128 = if elapsed >= 0 {
                elapsed / 60_000
            } else {
                -((-elapsed) / 60_000)
            };
            self.actual_effort = Some(minutes as u32);
        }
    }

    /// Mark as failed, with the reason as its result.
    pub fn fail(&mut self, reason: &str)
        ensures
            *final(self) == (Task { status: TaskStatus::Failed, result: final(self).result, ..*old(self) }),
            opt_text(final(self).result) == Some(reason@),
    {
        self.status = TaskStatus::Failed;
        self.result = Some(owned(reason));
    }

    /// Mark as blocked.
    pub fn block(&mut self)
        ensures
            *final(self) == (Task { status: TaskStatus::Blocked, ..*old(self) }),
    {
        self.status = TaskStatus::Blocked;
    }

    /// Whether the task is not completed and past its due date.
    pub fn is_overdue(&self) -> (r: bool)
        ensures
            r ==> self.status != TaskStatus::Completed && self.due_date_ms is Some,
            self.status != TaskStatus::Completed && (self.due_date_ms matches Some(d) && d < 0) ==> r,
            exists|now_ms: int| now_ms >= 0 && r == #[trigger] task_overdue_at(*self, now_ms),
    {
        let now = now_millis();
        let r = self.is_overdue_at(now);
        assert(r == task_overdue_at(*self, now as int));
        r
    }

    /// Whether the task is overdue when the clock reads `now_ms`: not
    /// completed, and `now_ms` past its due date.
    pub fn is_overdue_at(&self, now_ms: i64) -> (r: bool)
        ensures
            r == task_overdue_at(*self, now_ms as int),
    {
        match self.due_date_ms {
            Some(due) => self.status != TaskStatus::Completed && now_ms > due,
            None => false,
        }
    }

    /// Whether every dependency is among the completed tasks.
    pub fn dependencies_met(&self, completed_tasks: &Vec<MemoryId>) -> (r: bool)
        ensures
            r == forall|i: int| 0 <= i < self.dependencies@.len() ==> completed_tasks@.contains(
                #[trigger] self.dependencies@[i],
            ),
    {
        dependencies_met(&self.dependencies, completed_tasks)
    }

    /// Get text content for embedding.
    pub fn text_content(&self) -> (r: String)
        ensures
            r@ == joined(
                task_lines(self.title@, self.status, self.description, self.labels@, self.result),
                "\n"@,
            ),
    {
        task_text(&self.title, self.status, &self.description, &self.labels, &self.result)
    }
}

/// An item in working memory.
#[derive(Debug, Clone)]
pub struct WorkingMemoryItem {
    /// Type of item
    pub item_type: WorkingMemoryType,
    /// Content
    pub content: String,
    /// Structured data, as a JSON text
    pub data: Option<String>,
    /// Relevance to the current context in [0.0, 1.0] (an `f64` bit pattern)
    pub relevance: u64,
    /// When added, in milliseconds since the Unix epoch
    pub added_at_ms: i64,
    /// When it expires, in milliseconds since the Unix epoch
    pub expires_at_ms: Option<i64>,
    /// Source of this item
    pub source: Option<String>,
    /// Related memory IDs
    pub related: Vec<MemoryId>,
}

impl WorkingMemoryItem {
    /// Create a new item of relevance 0.5, added now.
    pub fn new(item_type: WorkingMemoryType, content: &str) -> (r: Self)
        ensures
            r.item_type == item_type,
            r.content@ == content@,
            r.data is None,
            r.relevance == HALF_BITS,
            r.added_at_ms >= 0,
            r.expires_at_ms is None,
            r.source is None,
            r.related@.len() == 0,
    {
        WorkingMemoryItem {
            item_type,
            content: owned(content),
            data: None,
            relevance: HALF_BITS,
            added_at_ms: now_millis(),
            expires_at_ms: None,
            source: None,
            related: Vec::new(),
        }
    }

    /// Set structured data (a JSON text).
    pub fn with_data(self, data: &str) -> (r: Self)
        ensures
            r == (WorkingMemoryItem { data: r.data, ..self }),
            opt_text(r.data) == Some(data@),
    {
        WorkingMemoryItem { data: Some(owned(data)), ..self }
    }

    /// Set the expiration, in milliseconds since the Unix epoch.
    pub fn with_expiration(self, expires_at_ms: i64) -> (r: Self)
        ensures
            r == (WorkingMemoryItem { expires_at_ms: Some(expires_at_ms), ..self }),
    {
        WorkingMemoryItem { expires_at_ms: Some(expires_at_ms), ..self }
    }

    /// Set the source.
    pub fn with_source(self, source: &str) -> (r: Self)
        ensures
            r == (WorkingMemoryItem { source: r.source, ..self }),
            opt_text(r.source) == Some(source@),
    {
        WorkingMemoryItem { source: Some(owned(source)), ..self }
    }

    /// Add a related memory.
    pub fn with_related(self, memory_id: MemoryId) -> (r: Self)
        ensures
            r == (WorkingMemoryItem { related: r.related, ..self }),
            r.related@ == self.related@.push(memory_id),
    {
        let mut related = self.related;
        related.push(memory_id);
        WorkingMemoryItem { related, ..self }
    }

    /// Whether the item has passed its expiration.
    pub fn is_expired(&self) -> (r: bool)
        ensures
            r ==> self.expires_at_ms is Some,
            (self.expires_at_ms matches Some(e) && e < 0) ==> r,
            exists|now_ms: int| now_ms >= 0 && r == #[trigger] item_expired_at(*self, now_ms),
    {
        let now = now_millis();
        let r = self.is_expired_at(now);
        assert(r == item_expired_at(*self, now as int));
        r
    }

    /// Whether the item has expired when the clock reads `now_ms`: it has an
    /// expiration and `now_ms` is past it.
    pub fn is_expired_at(&self, now_ms: i64) -> (r: bool)
        ensures
            r == item_expired_at(*self, now_ms as int),
    {
        match self.expires_at_ms {
            Some(exp) => now_ms > exp,
            None => false,
        }
    }

    /// Get text content for embedding.
    pub fn text_content(&self) -> (r: String)
        ensures
            r@ == joined(working_memory_lines(self.item_type, self.content@, self.source), "\n"@),
    {
        working_memory_text(self.item_type, &self.content, &self.source)
    }
}

/// Types of agent state content.
#[derive(Debug, Clone)]
pub enum AgentStateContent {
    /// A goal
    Goal(Goal),
    /// A task
    Task(Task),
    /// A working memory item
    WorkingMemory(WorkingMemoryItem),
}

/// Agent state memory: goals, tasks, working memory.
#[derive(Debug, Clone)]
pub struct AgentStateMemory {
    /// Common memory fields
    pub common: MemoryCommon,
    /// The specific agent state content
    pub content: AgentStateContent,
}

/// Whether a goal is overdue when the clock reads `now_ms`.
pub open spec fn goal_overdue_at(g: Goal, now_ms: int) -> bool {
    g.status == GoalStatus::Active && (g.deadline_ms matches Some(d) && now_ms > d)
}

/// Whether a task is overdue when the clock reads `now_ms`.
pub open spec fn task_overdue_at(t: Task, now_ms: int) -> bool {
    t.status != TaskStatus::Completed && (t.due_date_ms matches Some(d) && now_ms > d)
}

/// Whether a working memory item has expired when the clock reads `now_ms`.
pub open spec fn item_expired_at(w: WorkingMemoryItem, now_ms: int) -> bool {
    w.expires_at_ms matches Some(e) && now_ms > e
}

/// A task is overdue exactly when it is unfinished and the clock is past its
/// due date: never at or before the due date, never without one, never once
/// completed; and once overdue, it stays overdue as the clock advances.
pub proof fn lemma_task_overdue_only_past_due(t: Task, now_ms: int, later_ms: int)
    ensures
        (t.due_date_ms matches Some(d) && now_ms <= d) ==> !task_overdue_at(t, now_ms),
        t.due_date_ms is None ==> !task_overdue_at(t, now_ms),
        t.status == TaskStatus::Completed ==> !task_overdue_at(t, now_ms),
        (t.status != TaskStatus::Completed && (t.due_date_ms matches Some(d) && now_ms > d))
            ==> task_overdue_at(t, now_ms),
        task_overdue_at(t, now_ms) && now_ms <= later_ms ==> task_overdue_at(t, later_ms),
{
}

/// A goal is overdue exactly when it is still active and the clock is past
/// its deadline; once overdue, it stays overdue as the clock advances.
pub proof fn lemma_goal_overdue_only_past_deadline(g: Goal, now_ms: int, later_ms: int)
    ensures
        (g.deadline_ms matches Some(d) && now_ms <= d) ==> !goal_overdue_at(g, now_ms),
        g.deadline_ms is None ==> !goal_overdue_at(g, now_ms),
        g.status != GoalStatus::Active ==> !goal_overdue_at(g, now_ms),
        (g.status == GoalStatus::Active && (g.deadline_ms matches Some(d) && now_ms > d))
            ==> goal_overdue_at(g, now_ms),
        goal_overdue_at(g, now_ms) && now_ms <= later_ms ==> goal_overdue_at(g, later_ms),
{
}

/// A working memory item is expired exactly when the clock is past its
/// expiration; once expired, it stays expired.
pub proof fn lemma_item_expires_only_past_expiration(w: WorkingMemoryItem, now_ms: int, later_ms: int)
    ensures
        (w.expires_at_ms matches Some(e) && now_ms <= e) ==> !item_expired_at(w, now_ms),
        w.expires_at_ms is None ==> !item_expired_at(w, now_ms),
        (w.expires_at_ms matches Some(e) && now_ms > e) ==> item_expired_at(w, now_ms),
        item_expired_at(w, now_ms) && now_ms <= later_ms ==> item_expired_at(w, later_ms),
{
}

} // verus!
