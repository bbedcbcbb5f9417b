//! The task entity and the commands that act on it.

use crate::json::json_document;
use crate::time::{clock_range, Timestamp};
use vstd::prelude::*;
use vstd::string::StringExecFns;

verus! {

/// The operation that an update request asks for.
#[derive(Clone, Copy, Debug, PartialEq, Eq, Structural, Hash)]
pub enum UpdateOperation {
    Yield,
    HeartBeat,
    Status,
    Lease,
    Reset,
}

impl UpdateOperation {
    /// The operation's name as it is shown to people.
    pub open spec fn name(self) -> Seq<char> {
        match self {
            UpdateOperation::Yield => "Yield"@,
            UpdateOperation::HeartBeat => "HeartBeat"@,
            UpdateOperation::Status => "Status"@,
            UpdateOperation::Lease => "Lease"@,
            UpdateOperation::Reset => "Reset"@,
        }
    }

    /// The operation's name as it is shown to people.
    pub fn to_string(&self) -> (text: String)
        ensures
            text@ == self.name(),
    {
        match self {
            UpdateOperation::Yield => String::from_str("Yield"),
            UpdateOperation::HeartBeat => String::from_str("HeartBeat"),
            UpdateOperation::Status => String::from_str("Status"),
            UpdateOperation::Lease => String::from_str("Lease"),
            UpdateOperation::Reset => String::from_str("Reset"),
        }
    }
}

/// Where a task stands in its life.
#[derive(Clone, Copy, Debug, PartialEq, Eq, Structural, Hash)]
pub enum TaskStatus {
    Ready,
    Running,
    Completed,
    Aborted,
    Cancelled,
}

impl TaskStatus {
    /// Terminal statuses are final: no operation moves a task out of one.
    pub open spec fn is_terminal(self) -> bool {
        self == TaskStatus::Completed || self == TaskStatus::Aborted || self
            == TaskStatus::Cancelled
    }

    /// The statuses that a status operation may move a task to from `self`.
    /// `Ready` to `Running` is missing on purpose: only a lease does that.
    pub open spec fn transitions(self) -> Seq<TaskStatus> {
        match self {
            TaskStatus::Ready => seq![TaskStatus::Cancelled],
            TaskStatus::Running => seq![
                TaskStatus::Completed,
                TaskStatus::Cancelled,
                TaskStatus::Aborted,
            ],
            TaskStatus::Completed | TaskStatus::Aborted | TaskStatus::Cancelled => seq![],
        }
    }

    /// The status's name as it is shown to people.
    pub open spec fn name(self) -> Seq<char> {
        match self {
            TaskStatus::Ready => "Ready"@,
            TaskStatus::Running => "Running"@,
            TaskStatus::Completed => "Completed"@,
            TaskStatus::Aborted => "Aborted"@,
            TaskStatus::Cancelled => "Cancelled"@,
        }
    }

    /// The status's name in a stored document: lower case.
    pub open spec fn stored_name(self) -> Seq<char> {
        match self {
            TaskStatus::Ready => "ready"@,
            TaskStatus::Running => "running"@,
            TaskStatus::Completed => "completed"@,
            TaskStatus::Aborted => "aborted"@,
            TaskStatus::Cancelled => "cancelled"@,
        }
    }

    /// The status's name as it is shown to people.
    pub fn to_string(&self) -> (text: String)
        ensures
            text@ == self.name(),
    {
        match self {
            TaskStatus::Ready => String::from_str("Ready"),
            TaskStatus::Running => String::from_str("Running"),
            TaskStatus::Completed => String::from_str("Completed"),
            TaskStatus::Aborted => String::from_str("Aborted"),
            TaskStatus::Cancelled => String::from_str("Cancelled"),
        }
    }

    /// The name under which the status is stored and queried.
    pub fn to_stored_name(&self) -> (text: String)
        ensures
            text@ == self.stored_name(),
    {
        match self {
            TaskStatus::Ready => String::from_str("ready"),
            TaskStatus::Running => String::from_str("running"),
            TaskStatus::Completed => String::from_str("completed"),
            TaskStatus::Aborted => String::from_str("aborted"),
            TaskStatus::Cancelled => String::from_str("cancelled"),
        }
    }
}

/// What a status operation may do from a given status.
pub trait TaskStatusExt {
    /// The targets that the contract of `allowed_transitions` speaks of.
    spec fn allowed(&self) -> Seq<TaskStatus>;

    /// The statuses that a status operation may move a task to from this one.
    fn allowed_transitions(&self) -> (targets: &[TaskStatus])
        ensures
            targets@ == self.allowed(),
    ;
}

impl TaskStatusExt for TaskStatus {
    open spec fn allowed(&self) -> Seq<TaskStatus> {
        self.transitions()
    }

    fn allowed_transitions(&self) -> (targets: &[TaskStatus]) {
        match self {
            TaskStatus::Ready => &[TaskStatus::Cancelled],
            TaskStatus::Running => &[
                TaskStatus::Completed,
                TaskStatus::Cancelled,
                TaskStatus::Aborted,
            ],
            TaskStatus::Completed | TaskStatus::Aborted | TaskStatus::Cancelled => &[],
        }
    }
}

/// How far a running task has come: a fraction, held as the bit pattern of
/// the single-precision number that says it. The state machine stores and
/// copies a progress and never computes with one.
#[derive(Clone, Copy, Debug, PartialEq, Eq, Structural, Hash)]
pub struct Progress {
    pub bits: u32,
}

impl Progress {
    /// No progress: the bit pattern of zero.
    pub open spec fn none_yet() -> Progress {
        Progress { bits: 0 }
    }

    /// No progress.
    pub fn zero() -> (p: Progress)
        ensures
            p == Progress::none_yet(),
    {
        Progress { bits: 0 }
    }
}

/// The kind of a lifecycle event.
#[derive(Clone, Copy, Debug, PartialEq, Eq, Structural, Hash)]
pub enum TaskHistoryType {
    Assignment,
    Timeout,
    Yield,
}

impl TaskHistoryType {
    /// The kind's name in a stored document.
    pub open spec fn stored_name(self) -> Seq<char> {
        match self {
            TaskHistoryType::Assignment => "TaskAssignment"@,
            TaskHistoryType::Timeout => "TaskTimeout"@,
            TaskHistoryType::Yield => "TaskYield"@,
        }
    }

    /// The kind that a stored name stands for.
    pub open spec fn named(name: Seq<char>) -> Option<TaskHistoryType> {
        if name == "TaskAssignment"@ {
            Some(TaskHistoryType::Assignment)
        } else if name == "TaskTimeout"@ {
            Some(TaskHistoryType::Timeout)
        } else if name == "TaskYield"@ {
            Some(TaskHistoryType::Yield)
        } else {
            None
        }
    }

    /// Reads a kind from its stored name.
    pub fn from_stored_name(name: &str) -> (kind: Option<TaskHistoryType>)
        ensures
            kind == TaskHistoryType::named(name@),
    {
        let name = String::from_str(name);
        if name == String::from_str("TaskAssignment") {
            Some(TaskHistoryType::Assignment)
        } else if name == String::from_str("TaskTimeout") {
            Some(TaskHistoryType::Timeout)
        } else if name == String::from_str("TaskYield") {
            Some(TaskHistoryType::Yield)
        } else {
            None
        }
    }

    /// Every kind is read back from its stored name.
    pub proof fn stored_name_names_its_kind(self)
        ensures
            TaskHistoryType::named(self.stored_name()) == Some(self),
    {
        reveal_strlit("TaskAssignment");
        reveal_strlit("TaskTimeout");
        reveal_strlit("TaskYield");
        assert("TaskAssignment"@.len() == 14 && "TaskTimeout"@.len() == 11 && "TaskYield"@.len()
            == 9);
    }

    /// The name under which the kind is stored.
    pub fn to_stored_name(&self) -> (text: String)
        ensures
            text@ == self.stored_name(),
    {
        match self {
            TaskHistoryType::Assignment => String::from_str("TaskAssignment"),
            TaskHistoryType::Timeout => String::from_str("TaskTimeout"),
            TaskHistoryType::Yield => String::from_str("TaskYield"),
        }
    }
}

/// One lifecycle event of a task: who acted, when, and how far the task had come.
#[derive(Clone, Debug, PartialEq, Eq)]
pub struct TaskHistory {
    pub typ: TaskHistoryType,
    pub worker: String,
    pub progress: Option<Progress>,
    pub time: Timestamp,
}

/// The mathematical value of a [`TaskHistory`].
pub struct TaskHistoryView {
    pub typ: TaskHistoryType,
    pub worker: Seq<char>,
    pub progress: Option<Progress>,
    pub time: int,
}

impl View for TaskHistory {
    type V = TaskHistoryView;

    open spec fn view(&self) -> TaskHistoryView {
        TaskHistoryView {
            typ: self.typ,
            worker: self.worker@,
            progress: self.progress,
            time: self.time@,
        }
    }
}

/// A structured record of why a task failed.
#[derive(Clone, Debug, PartialEq, Eq)]
pub struct TaskError {
    pub code: String,
    pub args: serde_json::Value,
    pub description: String,
}

/// The mathematical value of a [`TaskError`].
pub struct TaskErrorView {
    pub code: Seq<char>,
    pub args: serde_json::Value,
    pub description: Seq<char>,
}

impl View for TaskError {
    type V = TaskErrorView;

    open spec fn view(&self) -> TaskErrorView {
        TaskErrorView { code: self.code@, args: self.args, description: self.description@ }
    }
}

/// The text of an optional string.
pub open spec fn text_of(s: Option<String>) -> Option<Seq<char>> {
    match s {
        Some(s) => Some(s@),
        None => None,
    }
}

/// The moment of an optional timestamp.
pub open spec fn moment_of(t: Option<Timestamp>) -> Option<int> {
    match t {
        Some(t) => Some(t@),
        None => None,
    }
}

/// The value of an optional failure record.
pub open spec fn failure_of(e: Option<TaskError>) -> Option<TaskErrorView> {
    match e {
        Some(e) => Some(e@),
        None => None,
    }
}

/// The values of a list of lifecycle events, in order.
pub open spec fn events_of(history: Seq<TaskHistory>) -> Seq<TaskHistoryView> {
    history.map_values(|h: TaskHistory| h@)
}

/// The values of a list of failure records, in order.
pub open spec fn failures_of(errors: Seq<TaskError>) -> Seq<TaskErrorView> {
    errors.map_values(|e: TaskError| e@)
}

/// A unit of work.
#[derive(Clone, Debug, PartialEq, Eq)]
pub struct Task {
    /// The resource name: the task's identity, fixed at creation.
    pub rn: String,
    /// The payload, fixed at creation and read by the task's consumer alone.
    pub spec: serde_json::Value,
    pub status: TaskStatus,
    /// The partition that leases are taken from.
    pub queue: String,
    pub progress: Progress,
    /// Higher leases first.
    pub priority: i8,
    pub created: Timestamp,
    pub updated: Timestamp,
    /// While the task runs: when its lease expires.
    pub deadline: Option<Timestamp>,
    /// While the task runs: the worker that holds the lease.
    pub owner: Option<String>,
    pub errors: Vec<TaskError>,
    pub history: Vec<TaskHistory>,
}

/// The mathematical value of a [`Task`].
pub struct TaskView {
    pub rn: Seq<char>,
    pub spec: serde_json::Value,
    pub status: TaskStatus,
    pub queue: Seq<char>,
    pub progress: Progress,
    pub priority: int,
    pub created: int,
    pub updated: int,
    pub deadline: Option<int>,
    pub owner: Option<Seq<char>>,
    pub errors: Seq<TaskErrorView>,
    pub history: Seq<TaskHistoryView>,
}

impl View for Task {
    type V = TaskView;

    open spec fn view(&self) -> TaskView {
        TaskView {
            rn: self.rn@,
            spec: self.spec,
            status: self.status,
            queue: self.queue@,
            progress: self.progress,
            priority: self.priority as int,
            created: self.created@,
            updated: self.updated@,
            deadline: moment_of(self.deadline),
            owner: text_of(self.owner),
            errors: failures_of(self.errors@),
            history: events_of(self.history@),
        }
    }
}

impl TaskView {
    /// A task that runs has an owner and a deadline; a task that is ready
    /// has neither. A task that has ended keeps what it had when it ended.
    pub open spec fn well_formed(self) -> bool {
        &&& self.status == TaskStatus::Running ==> self.owner is Some && self.deadline is Some
        &&& self.status == TaskStatus::Ready ==> self.owner is None && self.deadline is None
    }
}

impl Default for Task {
    /// A fresh task: ready, nameless, unowned, created and updated now, with
    /// the JSON `null` for its payload.
    fn default() -> (task: Task)
        ensures
            task@.rn == Seq::<char>::empty(),
            json_document("null"@) == Some(task@.spec),
            task@.status == TaskStatus::Ready,
            task@.queue == Seq::<char>::empty(),
            task@.progress == Progress::none_yet(),
            task@.priority == 0,
            clock_range(task@.created),
            clock_range(task@.updated),
            task@.deadline is None,
            task@.owner is None,
            task@.errors == Seq::<TaskErrorView>::empty(),
            task@.history == Seq::<TaskHistoryView>::empty(),
            task@.well_formed(),
    {
        Task {
            rn: String::new(),
            spec: serde_json::Value::default(),
            status: TaskStatus::Ready,
            queue: String::new(),
            progress: Progress::zero(),
            priority: 0,
            created: Timestamp::now(),
            updated: Timestamp::now(),
            deadline: None,
            owner: None,
            errors: Vec::new(),
            history: Vec::new(),
        }
    }
}

/// What a caller hands in to create a task.
#[derive(Debug)]
pub struct AddTaskModel {
    pub rn: String,
    pub spec: serde_json::Value,
    pub priority: i8,
    pub queue: String,
}

/// A command against one task: the operation, and the fields that the
/// operation reads.
#[derive(Debug)]
pub struct UpdateTaskModel {
    pub rn: String,
    pub operation: UpdateOperation,
    pub status: Option<TaskStatus>,
    pub error: Option<TaskError>,
    pub worker: Option<String>,
    pub progress: Option<Progress>,
    /// The length of the lease in seconds; where it is missing,
    /// [`DEFAULT_TASK_TIMEOUT_IN_SECS`] holds.
    pub task_timeout_in_secs: Option<i64>,
}

/// The lease length of a request that names none.
pub const DEFAULT_TASK_TIMEOUT_IN_SECS: i64 = 10;

/// The mathematical value of an [`UpdateTaskModel`].
pub struct UpdateTaskModelView {
    pub rn: Seq<char>,
    pub operation: UpdateOperation,
    pub status: Option<TaskStatus>,
    pub error: Option<TaskErrorView>,
    pub worker: Option<Seq<char>>,
    pub progress: Option<Progress>,
    pub task_timeout_in_secs: Option<i64>,
}

impl View for UpdateTaskModel {
    type V = UpdateTaskModelView;

    open spec fn view(&self) -> UpdateTaskModelView {
        UpdateTaskModelView {
            rn: self.rn@,
            operation: self.operation,
            status: self.status,
            error: failure_of(self.error),
            worker: text_of(self.worker),
            progress: self.progress,
            task_timeout_in_secs: self.task_timeout_in_secs,
        }
    }
}

impl UpdateTaskModelView {
    /// The lease length that the request asks for, in seconds.
    pub open spec fn lease_secs(self) -> int {
        match self.task_timeout_in_secs {
            Some(secs) => secs as int,
            None => DEFAULT_TASK_TIMEOUT_IN_SECS as int,
        }
    }
}

/// A filter over the stored tasks. A field that is `None` matches every task.
#[derive(Debug)]
pub struct GetTaskModel {
    pub limit: Option<i32>,
    pub queue: Option<String>,
    pub worker: Option<String>,
    pub status: Option<TaskStatus>,
}

/// The number of tasks that a query returns at most where the filter names no limit.
pub const DEFAULT_QUERY_LIMIT: i32 = 100;

impl Default for GetTaskModel {
    /// The filter that matches every task, up to the default limit.
    fn default() -> (filter: GetTaskModel)
        ensures
            filter.limit == Some(DEFAULT_QUERY_LIMIT),
            filter.queue is None,
            filter.worker is None,
            filter.status is None,
    {
        GetTaskModel { limit: Some(DEFAULT_QUERY_LIMIT), queue: None, worker: None, status: None }
    }
}

} // verus!
