//! What the persistence engine hands to the store, and what it makes of
//! the rows that come back.

use crate::models::{
    text_of, GetTaskModel, Progress, Task, TaskHistory, TaskHistoryType, TaskHistoryView,
    TaskStatus, TaskView, UpdateOperation, UpdateTaskModelView, DEFAULT_QUERY_LIMIT,
};
use crate::pg_error::{PgAdapterError, PgAdapterErrorView};
use crate::time::Timestamp;
use crate::update_task::{lease_effect, seconds_after};
use vstd::prelude::*;
use vstd::string::StringExecFns;

verus! {

/// The rows of a statement that names one task: none, or the task.
pub open spec fn at_most_one<A>(rows: Seq<A>) -> bool {
    rows.len() <= 1
}

/// What a statement that names one task came to: the row, or `absent` where
/// there is none.
pub open spec fn single_row(rows: Seq<Task>, absent: PgAdapterErrorView) -> Result<
    Task,
    PgAdapterErrorView,
> {
    if rows.len() == 0 {
        Err(absent)
    } else {
        Ok(rows[0])
    }
}

/// The value of a row or an error.
pub open spec fn row_of(r: Result<&Task, PgAdapterError>) -> Result<Task, PgAdapterErrorView> {
    match r {
        Ok(task) => Ok(*task),
        Err(e) => Err(e@),
    }
}

/// What an insert came to. The statement skips a task whose name is taken,
/// so no row back means that the name was taken; one row is the task as stored.
pub fn handle_insert_return<'a>(tasks: &'a [Task], original_task: &Task) -> (stored: Result<
    &'a Task,
    PgAdapterError,
>)
    requires
        at_most_one(tasks@),
    ensures
        row_of(stored) == single_row(
            tasks@,
            PgAdapterErrorView::DuplicateTask(original_task.rn@),
        ),
{
    if tasks.len() == 0 {
        Err(PgAdapterError::DuplicateTask(original_task.rn.clone()))
    } else {
        Ok(&tasks[0])
    }
}

/// What an update came to. No row back means that the task is gone; one row
/// is the task as stored.
pub fn handle_update_return<'a>(tasks: &'a [Task], original_task: &'a Task) -> (stored: Result<
    &'a Task,
    PgAdapterError,
>)
    requires
        at_most_one(tasks@),
    ensures
        row_of(stored) == single_row(tasks@, PgAdapterErrorView::NoTaskFound(original_task.rn@)),
{
    if tasks.len() == 0 {
        Err(PgAdapterError::NoTaskFound(original_task.rn.clone()))
    } else {
        Ok(&tasks[0])
    }
}

/// What a query by name came to. No row back means that no such task is
/// stored; one row is the task.
pub fn handle_query_by_rn_return<'a>(tasks: &'a [Task], rn: &str) -> (found: Result<
    &'a Task,
    PgAdapterError,
>)
    requires
        at_most_one(tasks@),
    ensures
        row_of(found) == single_row(tasks@, PgAdapterErrorView::NoTaskFound(rn@)),
{
    if tasks.len() == 0 {
        Err(PgAdapterError::NoTaskFound(String::from_str(rn)))
    } else {
        Ok(&tasks[0])
    }
}

/// The parameters of the query statement. The three texts are patterns:
/// `%` matches every task.
#[derive(PartialEq, Eq, Debug)]
pub struct QueryParams {
    pub status: String,
    pub queue: String,
    pub worker: String,
    pub limit: i32,
}

/// The pattern for a filter's field: the text itself, or `%` where the
/// filter leaves the field open.
pub open spec fn pattern_of(field: Option<Seq<char>>) -> Seq<char> {
    match field {
        Some(text) => text,
        None => "%"@,
    }
}

/// The pattern for a filter's status: its stored name.
pub open spec fn status_pattern_of(status: Option<TaskStatus>) -> Seq<char> {
    match status {
        Some(status) => status.stored_name(),
        None => "%"@,
    }
}

/// The limit of a filter: its own, or the default.
pub open spec fn limit_of(limit: Option<i32>) -> i32 {
    match limit {
        Some(limit) => limit,
        None => DEFAULT_QUERY_LIMIT,
    }
}

/// The pattern for an optional text.
fn pattern(field: &Option<String>) -> (text: String)
    ensures
        text@ == pattern_of(text_of(*field)),
{
    match field {
        Some(text) => text.clone(),
        None => String::from_str("%"),
    }
}

/// Turns a filter into the parameters of the query statement.
pub fn prepare_query_task(get_task_model: &GetTaskModel) -> (params: QueryParams)
    ensures
        params.status@ == status_pattern_of(get_task_model.status),
        params.queue@ == pattern_of(text_of(get_task_model.queue)),
        params.worker@ == pattern_of(text_of(get_task_model.worker)),
        params.limit == limit_of(get_task_model.limit),
{
    let status = match get_task_model.status {
        Some(status) => status.to_stored_name(),
        None => String::from_str("%"),
    };
    let queue = pattern(&get_task_model.queue);
    let worker = pattern(&get_task_model.worker);
    let limit = match get_task_model.limit {
        Some(limit) => limit,
        None => DEFAULT_QUERY_LIMIT,
    };
    QueryParams { status, queue, worker, limit }
}

/// The parameters of the statement that leases a batch: whom the tasks go
/// to, and what the statement writes into each task it claims.
#[derive(PartialEq, Eq, Debug)]
pub struct LeaseBatchParams {
    pub queue: String,
    pub limit: i32,
    pub worker: String,
    pub deadline: Timestamp,
    pub updated: Timestamp,
    pub history: TaskHistory,
}

/// Prepares the lease of up to `limit` ready tasks of `queue` to `worker`
/// at `now`, for `task_timeout_in_secs` seconds. Each task that the
/// statement claims gets what a single lease at `now` would give it.
pub fn prepare_lease_batch(
    queue: String,
    limit: i32,
    worker: String,
    task_timeout_in_secs: i64,
    now: Timestamp,
) -> (params: LeaseBatchParams)
    requires
        now.is_reading(),
    ensures
        params.queue == queue,
        params.limit == limit,
        params.worker == worker,
        params.deadline@ == seconds_after(now@, task_timeout_in_secs as int),
        params.updated == now,
        params.history@ == (TaskHistoryView {
            typ: TaskHistoryType::Assignment,
            worker: worker@,
            progress: Some(Progress::none_yet()),
            time: now@,
        }),
{
    let history = TaskHistory {
        typ: TaskHistoryType::Assignment,
        time: now,
        worker: worker.clone(),
        progress: Some(Progress::zero()),
    };
    LeaseBatchParams {
        queue,
        limit,
        worker,
        deadline: now.plus_seconds(task_timeout_in_secs),
        updated: now,
        history,
    }
}

/// The moment before which an ended task must have been updated last for
/// the retention sweep at `now` to delete it: `retention_time_in_secs`
/// seconds before `now`.
pub fn prepare_delete_batch(retention_time_in_secs: i64, now: Timestamp) -> (cutoff: Timestamp)
    requires
        now.is_reading(),
    ensures
        cutoff@ == seconds_after(now@, -(retention_time_in_secs as int)),
{
    now.minus_seconds(retention_time_in_secs)
}

/// A batch lease gives each task that it claims what a single lease to the
/// same worker, of the same length and at the same time, would give it:
/// the statement's parameters are the owner, the deadline, the time of the
/// update and the assignment that the lease writes.
pub proof fn batch_lease_is_a_lease(
    task: TaskView,
    req: UpdateTaskModelView,
    now: int,
    params: LeaseBatchParams,
)
    requires
        req.operation == UpdateOperation::Lease,
        req.worker == Some(params.worker@),
        params.deadline@ == seconds_after(now, req.lease_secs()),
        params.updated@ == now,
        params.history@ == (TaskHistoryView {
            typ: TaskHistoryType::Assignment,
            worker: params.worker@,
            progress: Some(Progress::none_yet()),
            time: now,
        }),
    ensures
        lease_effect(task, req, now) == (TaskView {
            status: TaskStatus::Running,
            owner: Some(params.worker@),
            deadline: Some(params.deadline@),
            updated: params.updated@,
            history: task.history.push(params.history@),
            ..task
        }),
{
}

} // verus!
