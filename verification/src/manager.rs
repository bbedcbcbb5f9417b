//! The requests behind the manager's operations, and the step between
//! fetching a task and writing it back.
//!
//! The manager fetches the task that a request names, lets the state
//! machine check the request and carry it out, and writes the result. It
//! holds no state and takes no lock.

use crate::error::ScyllaOperationsErrorView;
use crate::models::{
    Progress, Task, TaskError, TaskStatus, TaskView, UpdateOperation, UpdateTaskModel,
    UpdateTaskModelView, DEFAULT_TASK_TIMEOUT_IN_SECS,
};
use crate::pg_error::{PgAdapterError, PgAdapterErrorView};
use crate::task::ScyllaOperations;
use crate::time::{clock_range, Timestamp};
use crate::update_task::{
    handle, owner_on_hand, owner_on_hand_at, request_handler_at, validate_reset_operation,
    validate_yield_operation,
};
use vstd::prelude::*;

verus! {

/// The request that leases the task `rn` to `worker`.
pub fn lease_request(rn: String, worker: String, task_timeout_in_secs: Option<i64>) -> (request:
    UpdateTaskModel)
    ensures
        request@ == (UpdateTaskModelView {
            rn: rn@,
            operation: UpdateOperation::Lease,
            status: None,
            error: None,
            worker: Some(worker@),
            progress: None,
            task_timeout_in_secs,
        }),
{
    UpdateTaskModel {
        rn,
        worker: Some(worker),
        status: None,
        progress: None,
        operation: UpdateOperation::Lease,
        error: None,
        task_timeout_in_secs,
    }
}

/// The request by which `worker` extends its lease of the task `rn`, and
/// reports its progress if it has one to report.
pub fn heartbeat_request(
    rn: String,
    worker: String,
    progress: Option<Progress>,
    task_timeout_in_secs: Option<i64>,
) -> (request: UpdateTaskModel)
    ensures
        request@ == (UpdateTaskModelView {
            rn: rn@,
            operation: UpdateOperation::HeartBeat,
            status: None,
            error: None,
            worker: Some(worker@),
            progress,
            task_timeout_in_secs,
        }),
{
    UpdateTaskModel {
        rn,
        worker: Some(worker),
        status: None,
        progress,
        operation: UpdateOperation::HeartBeat,
        error: None,
        task_timeout_in_secs,
    }
}

/// The request that moves the task `rn` to `status`.
fn status_request(rn: String, status: TaskStatus, error: Option<TaskError>) -> (request:
    UpdateTaskModel)
    ensures
        request@ == (UpdateTaskModelView {
            rn: rn@,
            operation: UpdateOperation::Status,
            status: Some(status),
            error: crate::models::failure_of(error),
            worker: None,
            progress: None,
            task_timeout_in_secs: None,
        }),
{
    UpdateTaskModel {
        rn,
        worker: None,
        status: Some(status),
        progress: None,
        operation: UpdateOperation::Status,
        error,
        task_timeout_in_secs: None,
    }
}

/// The request that cancels the task `rn`.
pub fn cancel_request(rn: String) -> (request: UpdateTaskModel)
    ensures
        request@ == (UpdateTaskModelView {
            rn: rn@,
            operation: UpdateOperation::Status,
            status: Some(TaskStatus::Cancelled),
            error: None,
            worker: None,
            progress: None,
            task_timeout_in_secs: None,
        }),
{
    status_request(rn, TaskStatus::Cancelled, None)
}

/// The request that completes the task `rn`.
pub fn complete_request(rn: String) -> (request: UpdateTaskModel)
    ensures
        request@ == (UpdateTaskModelView {
            rn: rn@,
            operation: UpdateOperation::Status,
            status: Some(TaskStatus::Completed),
            error: None,
            worker: None,
            progress: None,
            task_timeout_in_secs: None,
        }),
{
    status_request(rn, TaskStatus::Completed, None)
}

/// The request that aborts the task `rn` on `error`.
pub fn abort_request(rn: String, error: TaskError) -> (request: UpdateTaskModel)
    ensures
        request@ == (UpdateTaskModelView {
            rn: rn@,
            operation: UpdateOperation::Status,
            status: Some(TaskStatus::Aborted),
            error: Some(error@),
            worker: None,
            progress: None,
            task_timeout_in_secs: None,
        }),
{
    status_request(rn, TaskStatus::Aborted, Some(error))
}

/// The request that `operation` makes where it needs the task's name alone.
fn bare_request(rn: String, operation: UpdateOperation) -> (request: UpdateTaskModel)
    ensures
        request@ == (UpdateTaskModelView {
            rn: rn@,
            operation,
            status: None,
            error: None,
            worker: None,
            progress: None,
            task_timeout_in_secs: None,
        }),
{
    UpdateTaskModel {
        rn,
        worker: None,
        status: None,
        progress: None,
        operation,
        error: None,
        task_timeout_in_secs: None,
    }
}

/// The request by which the owner gives the task `rn` back before its time.
pub fn yield_request(rn: String) -> (request: UpdateTaskModel)
    ensures
        request@ == (UpdateTaskModelView {
            rn: rn@,
            operation: UpdateOperation::Yield,
            status: None,
            error: None,
            worker: None,
            progress: None,
            task_timeout_in_secs: None,
        }),
{
    bare_request(rn, UpdateOperation::Yield)
}

/// The request that takes the task `rn` back from an owner whose lease has
/// run out.
pub fn reset_request(rn: String) -> (request: UpdateTaskModel)
    ensures
        request@ == (UpdateTaskModelView {
            rn: rn@,
            operation: UpdateOperation::Reset,
            status: None,
            error: None,
            worker: None,
            progress: None,
            task_timeout_in_secs: None,
        }),
{
    bare_request(rn, UpdateOperation::Reset)
}

/// The lease length of a batch, in seconds: the caller's, or the default.
pub fn batch_timeout(task_timeout_in_secs: Option<i64>) -> (secs: i64)
    ensures
        secs == match task_timeout_in_secs {
            Some(secs) => secs,
            None => DEFAULT_TASK_TIMEOUT_IN_SECS,
        },
{
    match task_timeout_in_secs {
        Some(secs) => secs,
        None => DEFAULT_TASK_TIMEOUT_IN_SECS,
    }
}

/// Whether the task has the owner that `operation` puts on record, as the
/// state machine asks of a task before it reads the clock.
pub fn has_owner_on_hand(task: &Task, operation: UpdateOperation) -> (known: bool)
    ensures
        known == owner_on_hand(task@, operation),
{
    match operation {
        UpdateOperation::Yield => task.status != TaskStatus::Running || task.owner.is_some(),
        UpdateOperation::Reset => task.status != TaskStatus::Running || task.deadline.is_none()
            || task.owner.is_some(),
        _ => true,
    }
}

/// Whether the task has the owner that `operation` puts on record at `now`,
/// as the state machine asks of a task at a given time.
pub fn has_owner_on_hand_at(task: &Task, operation: UpdateOperation, now: Timestamp) -> (known:
    bool)
    ensures
        known == owner_on_hand_at(task@, operation, now@),
{
    match operation {
        UpdateOperation::Yield => validate_yield_operation(task).is_err() || task.owner.is_some(),
        UpdateOperation::Reset => validate_reset_operation(task, now).is_err()
            || task.owner.is_some(),
        _ => true,
    }
}

/// What the manager makes of the state machine's answer: the task to write,
/// or the refusal as an error of the engine.
pub open spec fn step_of(answer: Result<TaskView, ScyllaOperationsErrorView>) -> Result<
    TaskView,
    PgAdapterErrorView,
> {
    match answer {
        Ok(task) => Ok(task),
        Err(refusal) => Err(PgAdapterErrorView::ScyllaOpsError(refusal)),
    }
}

/// The value of the manager's step.
pub open spec fn written_of(r: Result<Task, PgAdapterError>) -> Result<TaskView, PgAdapterErrorView> {
    match r {
        Ok(task) => Ok(task@),
        Err(e) => Err(e@),
    }
}

/// The step between fetch and write at a given time: lets the state machine
/// check the request against the fetched task as of `now`. What comes back
/// is the task to write, or the refusal.
pub fn update_task_at(utm: &UpdateTaskModel, task_to_update: Task, now: Timestamp) -> (step:
    Result<Task, PgAdapterError>)
    requires
        now.is_reading(),
        owner_on_hand_at(task_to_update@, utm.operation, now@),
    ensures
        written_of(step) == step_of(handle(task_to_update@, utm@, now@)),
{
    match request_handler_at(task_to_update, utm, now) {
        Ok(task) => Ok(task),
        Err(refusal) => Err(PgAdapterError::from(refusal)),
    }
}

/// The step between fetch and write: lets the state machine check the
/// request against the fetched task as of now. What comes back is the task
/// to write, or the refusal.
pub fn update_task(utm: &UpdateTaskModel, task_to_update: Task) -> (step: Result<
    Task,
    PgAdapterError,
>)
    requires
        owner_on_hand(task_to_update@, utm.operation),
    ensures
        exists|now: int|
            clock_range(now) && written_of(step) == step_of(
                #[trigger] handle(task_to_update@, utm@, now),
            ),
{
    match ScyllaOperations::update_task_operation(utm, task_to_update) {
        Ok(task) => Ok(task),
        Err(refusal) => Err(PgAdapterError::from(refusal)),
    }
}

} // verus!
