//! The task lifecycle: which operation is legal against a task in which
//! state, and what it makes of the task.
//!
//! Each operation has a check, which may refuse the request, and an effect,
//! which says what the task becomes. Both are stated as functions over the
//! values of task and request, with the time of the operation as a number.

use crate::error::{ScyllaOperationsError, ScyllaOperationsErrorView};
use crate::models::{
    events_of, failures_of, Progress, Task, TaskError, TaskHistory, TaskHistoryType,
    TaskHistoryView, TaskStatus, TaskStatusExt, TaskView, UpdateOperation, UpdateTaskModel,
    UpdateTaskModelView, DEFAULT_TASK_TIMEOUT_IN_SECS,
};
use crate::time::{clock_range, Timestamp};
use vstd::prelude::*;
use vstd::string::StringExecFns;

verus! {

/// The statuses that a task can still leave.
pub open spec fn non_terminal_statuses() -> Seq<TaskStatus> {
    seq![TaskStatus::Ready, TaskStatus::Running]
}

/// The moment `secs` seconds after `now` (before it, where `secs` is negative).
pub open spec fn seconds_after(now: int, secs: int) -> int {
    now + secs * 1_000_000_000
}

/// The refusal of `operation` on a task that is `found` where it has to be `needed`.
pub open spec fn wrong_status(
    operation: UpdateOperation,
    needed: TaskStatus,
    found: TaskStatus,
) -> ScyllaOperationsErrorView {
    ScyllaOperationsErrorView::InvalidOperation(operation, needed, found)
}

/// The refusal of `operation` for want of `field`.
pub open spec fn missing(field: Seq<char>, operation: UpdateOperation) -> ScyllaOperationsErrorView {
    ScyllaOperationsErrorView::MandatoryFieldMissing(field, operation)
}

// ---------------------------------------------------------------- status

/// Whether a status operation is legal. The request must name a target; the
/// task must not have ended; the target must be reachable from the task's
/// status; and a task is aborted only with a failure record.
pub open spec fn status_check(task: TaskView, req: UpdateTaskModelView) -> Result<
    (),
    ScyllaOperationsErrorView,
> {
    match req.status {
        None => Err(missing("status"@, UpdateOperation::Status)),
        Some(target) => if task.status.is_terminal() {
            Err(
                ScyllaOperationsErrorView::TerminalTaskStatus(
                    task.status,
                    non_terminal_statuses(),
                ),
            )
        } else if !task.status.transitions().contains(target) {
            Err(
                ScyllaOperationsErrorView::InvalidStatusTransition(
                    task.status,
                    task.status.transitions(),
                ),
            )
        } else if target == TaskStatus::Aborted && req.error is None {
            Err(missing("error"@, UpdateOperation::Status))
        } else {
            Ok(())
        },
    }
}

/// The task after a status operation at `now`: it has the target status, and
/// the failure record, if the request brings one, is added where the task is
/// aborted.
pub open spec fn status_effect(task: TaskView, req: UpdateTaskModelView, now: int) -> TaskView
    recommends
        req.status is Some,
{
    TaskView {
        status: req.status->0,
        updated: now,
        errors: if req.status->0 == TaskStatus::Aborted && req.error is Some {
            task.errors.push(req.error->0)
        } else {
            task.errors
        },
        ..task
    }
}

// ----------------------------------------------------------------- lease

/// Whether a lease is legal: the task is ready, and the request names the worker.
pub open spec fn lease_check(task: TaskView, req: UpdateTaskModelView) -> Result<
    (),
    ScyllaOperationsErrorView,
> {
    if task.status != TaskStatus::Ready {
        Err(wrong_status(UpdateOperation::Lease, TaskStatus::Ready, task.status))
    } else if req.worker is None {
        Err(missing("worker"@, UpdateOperation::Lease))
    } else {
        Ok(())
    }
}

/// The task after a lease at `now`: it runs, the worker owns it until the
/// lease length has passed, and the assignment is on record.
pub open spec fn lease_effect(task: TaskView, req: UpdateTaskModelView, now: int) -> TaskView
    recommends
        req.worker is Some,
{
    TaskView {
        status: TaskStatus::Running,
        owner: req.worker,
        deadline: Some(seconds_after(now, req.lease_secs())),
        updated: now,
        history: task.history.push(
            TaskHistoryView {
                typ: TaskHistoryType::Assignment,
                worker: req.worker->0,
                progress: Some(Progress::none_yet()),
                time: now,
            },
        ),
        ..task
    }
}

// ------------------------------------------------------------- heartbeat

/// Whether a heartbeat is legal: the task runs, and the worker, where the
/// request names one, is the owner.
pub open spec fn heart_beat_check(task: TaskView, req: UpdateTaskModelView) -> Result<
    (),
    ScyllaOperationsErrorView,
> {
    if task.status != TaskStatus::Running {
        Err(wrong_status(UpdateOperation::HeartBeat, TaskStatus::Running, task.status))
    } else if req.worker is Some && req.worker != task.owner {
        Err(ScyllaOperationsErrorView::ValidationFailed("Only owner can extend the heartbeat."@))
    } else {
        Ok(())
    }
}

/// The task after a heartbeat at `now`: the lease runs anew from `now`, and
/// the progress is the one that the request reports, if it reports one.
pub open spec fn heart_beat_effect(task: TaskView, req: UpdateTaskModelView, now: int) -> TaskView {
    TaskView {
        updated: now,
        deadline: Some(seconds_after(now, req.lease_secs())),
        progress: match req.progress {
            Some(progress) => progress,
            None => task.progress,
        },
        ..task
    }
}

// ----------------------------------------------------------------- yield

/// Whether a yield is legal: the task runs.
pub open spec fn yield_check(task: TaskView) -> Result<(), ScyllaOperationsErrorView> {
    if task.status == TaskStatus::Running {
        Ok(())
    } else {
        Err(wrong_status(UpdateOperation::Yield, TaskStatus::Running, task.status))
    }
}

/// The task after a yield at `now`: it still runs, but its lease ended a
/// second ago, so that the next sweep takes it back; the yield is on record
/// with the owner and the progress.
pub open spec fn yield_effect(task: TaskView, now: int) -> TaskView
    recommends
        task.owner is Some,
{
    TaskView {
        updated: now,
        deadline: Some(seconds_after(now, -1)),
        history: task.history.push(
            TaskHistoryView {
                typ: TaskHistoryType::Yield,
                worker: task.owner->0,
                progress: Some(task.progress),
                time: now,
            },
        ),
        ..task
    }
}

// ----------------------------------------------------------------- reset

/// Whether a reset is legal at `now`: the task runs, and its lease has a
/// deadline that lies before `now`.
pub open spec fn reset_check(task: TaskView, now: int) -> Result<(), ScyllaOperationsErrorView> {
    if task.status != TaskStatus::Running {
        Err(wrong_status(UpdateOperation::Reset, TaskStatus::Running, task.status))
    } else if task.deadline is None {
        Err(missing("deadline"@, UpdateOperation::Reset))
    } else if task.deadline->0 >= now {
        Err(
            ScyllaOperationsErrorView::ValidationFailed(
                "deadline not yet passed for reset operation"@,
            ),
        )
    } else {
        Ok(())
    }
}

/// Whether the last event on record is a yield.
pub open spec fn ends_in_yield(history: Seq<TaskHistoryView>) -> bool {
    history.len() > 0 && history.last().typ == TaskHistoryType::Yield
}

/// The task after a reset at `now`: it is ready again, nobody owns it, and
/// its progress is gone. The timeout is on record with the owner and the
/// progress that the task had, unless the task was yielded: a yield is not
/// logged a second time as a timeout.
pub open spec fn reset_effect(task: TaskView, now: int) -> TaskView
    recommends
        task.owner is Some,
{
    TaskView {
        status: TaskStatus::Ready,
        owner: None,
        deadline: None,
        progress: Progress::none_yet(),
        updated: now,
        history: if ends_in_yield(task.history) {
            task.history
        } else {
            task.history.push(
                TaskHistoryView {
                    typ: TaskHistoryType::Timeout,
                    worker: task.owner->0,
                    progress: Some(task.progress),
                    time: now,
                },
            )
        },
        ..task
    }
}

// -------------------------------------------------------------- dispatch

/// Whether the request is legal against the task at `now`.
pub open spec fn check(task: TaskView, req: UpdateTaskModelView, now: int) -> Result<
    (),
    ScyllaOperationsErrorView,
> {
    match req.operation {
        UpdateOperation::Status => status_check(task, req),
        UpdateOperation::HeartBeat => heart_beat_check(task, req),
        UpdateOperation::Yield => yield_check(task),
        UpdateOperation::Lease => lease_check(task, req),
        UpdateOperation::Reset => reset_check(task, now),
    }
}

/// What a legal request makes of the task at `now`.
pub open spec fn effect(task: TaskView, req: UpdateTaskModelView, now: int) -> TaskView {
    match req.operation {
        UpdateOperation::Status => status_effect(task, req, now),
        UpdateOperation::HeartBeat => heart_beat_effect(task, req, now),
        UpdateOperation::Yield => yield_effect(task, now),
        UpdateOperation::Lease => lease_effect(task, req, now),
        UpdateOperation::Reset => reset_effect(task, now),
    }
}

/// The state machine: the task that the request makes of `task` at `now`, or
/// the reason why the request is refused.
pub open spec fn handle(task: TaskView, req: UpdateTaskModelView, now: int) -> Result<
    TaskView,
    ScyllaOperationsErrorView,
> {
    match check(task, req, now) {
        Ok(_) => Ok(effect(task, req, now)),
        Err(refusal) => Err(refusal),
    }
}

/// Whether the task has the owner that the operation puts on record at
/// `now`. A yield and a reset name the task's owner in the history, so a
/// task on which one of them is legal must have one. Where the operation is
/// refused, nothing is put on record and nothing is asked.
pub open spec fn owner_on_hand_at(task: TaskView, operation: UpdateOperation, now: int) -> bool {
    match operation {
        UpdateOperation::Yield => yield_check(task) is Ok ==> task.owner is Some,
        UpdateOperation::Reset => reset_check(task, now) is Ok ==> task.owner is Some,
        _ => true,
    }
}

/// Whether the task has the owner that the operation puts on record,
/// whenever the operation is carried out: a running task has one under a
/// yield, and a running task with a deadline has one under a reset. A reset
/// of a task without a deadline is refused at every time.
pub open spec fn owner_on_hand(task: TaskView, operation: UpdateOperation) -> bool {
    match operation {
        UpdateOperation::Yield => task.status == TaskStatus::Running ==> task.owner is Some,
        UpdateOperation::Reset => task.status == TaskStatus::Running && task.deadline is Some
            ==> task.owner is Some,
        _ => true,
    }
}

/// A task that has its owner on hand whenever the operation is carried out
/// has it on hand at every moment.
pub proof fn owner_on_hand_at_every_moment(task: TaskView, operation: UpdateOperation, now: int)
    requires
        owner_on_hand(task, operation),
    ensures
        owner_on_hand_at(task, operation, now),
{
}

/// The value of a check's result.
pub open spec fn verdict_of(r: Result<(), ScyllaOperationsError>) -> Result<
    (),
    ScyllaOperationsErrorView,
> {
    match r {
        Ok(_) => Ok(()),
        Err(e) => Err(e@),
    }
}

/// The value of the state machine's result.
pub open spec fn outcome_of(r: Result<Task, ScyllaOperationsError>) -> Result<
    TaskView,
    ScyllaOperationsErrorView,
> {
    match r {
        Ok(task) => Ok(task@),
        Err(e) => Err(e@),
    }
}

// ------------------------------------------------------------ executable

/// Whether `status` stands in `list`.
fn listed(list: &[TaskStatus], status: TaskStatus) -> (found: bool)
    ensures
        found == list@.contains(status),
{
    let mut i: usize = 0;
    while i < list.len()
        invariant
            i <= list.len(),
            forall|j: int| 0 <= j < i ==> list@[j] != status,
        decreases list.len() - i,
    {
        if list[i] == status {
            return true;
        }
        i += 1;
    }
    false
}

/// The statuses of `list`, owned.
fn collected(list: &[TaskStatus]) -> (owned: Vec<TaskStatus>)
    ensures
        owned@ == list@,
{
    let mut owned: Vec<TaskStatus> = Vec::new();
    let mut i: usize = 0;
    while i < list.len()
        invariant
            i <= list.len(),
            owned@ == list@.take(i as int),
        decreases list.len() - i,
    {
        owned.push(list[i]);
        i += 1;
    }
    owned
}

/// A copy of a failure record.
fn copied(error: &TaskError) -> (copy: TaskError)
    ensures
        copy@ == error@,
{
    TaskError {
        code: error.code.clone(),
        args: error.args.clone(),
        description: error.description.clone(),
    }
}

/// Adding an event to a history adds its value to the history's value.
proof fn events_of_push(history: Seq<TaskHistory>, event: TaskHistory)
    ensures
        events_of(history.push(event)) == events_of(history).push(event@),
{
}

/// Adding a failure record to a list adds its value to the list's value.
proof fn failures_of_push(errors: Seq<TaskError>, error: TaskError)
    ensures
        failures_of(errors.push(error)) == failures_of(errors).push(error@),
{
}

/// Checks a status operation against the task.
pub fn validate_status_operation(task: &Task, update_task_model: &UpdateTaskModel) -> (verdict:
    Result<(), ScyllaOperationsError>)
    ensures
        verdict_of(verdict) == status_check(task@, update_task_model@),
{
    let target = match update_task_model.status {
        Some(target) => target,
        None => {
            return Err(
                ScyllaOperationsError::MandatoryFieldMissing(
                    String::from_str("status"),
                    UpdateOperation::Status,
                ),
            );
        },
    };
    if !(task.status == TaskStatus::Ready || task.status == TaskStatus::Running) {
        let mut open: Vec<TaskStatus> = Vec::new();
        open.push(TaskStatus::Ready);
        open.push(TaskStatus::Running);
        assert(open@ == non_terminal_statuses());
        return Err(ScyllaOperationsError::TerminalTaskStatus(task.status, open));
    }
    let allowed = task.status.allowed_transitions();
    if !listed(allowed, target) {
        return Err(ScyllaOperationsError::InvalidStatusTransition(task.status, collected(allowed)));
    }
    if target == TaskStatus::Aborted && update_task_model.error.is_none() {
        return Err(
            ScyllaOperationsError::MandatoryFieldMissing(
                String::from_str("error"),
                UpdateOperation::Status,
            ),
        );
    }
    Ok(())
}

/// Carries out a status operation at `now`. The request names the target
/// status: that is what [`validate_status_operation`] has checked.
pub fn prepare_status_task(task: Task, update_task_model: &UpdateTaskModel, now: Timestamp) -> (after:
    Task)
    requires
        update_task_model.status is Some,
    ensures
        after@ == status_effect(task@, update_task_model@, now@),
{
    let ghost before = task;
    let mut task = task;
    let target = update_task_model.status.unwrap();
    task.status = target;
    task.updated = now;
    if target == TaskStatus::Aborted {
        if let Some(error) = &update_task_model.error {
            let copy = copied(error);
            proof {
                failures_of_push(before.errors@, copy);
            }
            task.errors.push(copy);
        }
    }
    task
}

/// Checks a yield against the task.
pub fn validate_yield_operation(task: &Task) -> (verdict: Result<(), ScyllaOperationsError>)
    ensures
        verdict_of(verdict) == yield_check(task@),
{
    if task.status == TaskStatus::Running {
        Ok(())
    } else {
        Err(
            ScyllaOperationsError::InvalidOperation(
                UpdateOperation::Yield,
                TaskStatus::Running,
                task.status,
            ),
        )
    }
}

/// Carries out a yield at `now`, on a task that has an owner.
pub fn prepare_yield_task(task: Task, now: Timestamp) -> (after: Task)
    requires
        task.owner is Some,
        now.is_reading(),
    ensures
        after@ == yield_effect(task@, now@),
{
    let ghost before = task;
    let mut task = task;
    let event = TaskHistory {
        typ: TaskHistoryType::Yield,
        time: now,
        worker: task.owner.as_ref().unwrap().clone(),
        progress: Some(task.progress),
    };
    proof {
        events_of_push(before.history@, event);
    }
    task.updated = now;
    task.deadline = Some(now.plus_seconds(-1));
    task.history.push(event);
    task
}

/// Whether `worker` is the task's owner.
fn owned_by(owner: &Option<String>, worker: &String) -> (same: bool)
    ensures
        same == (crate::models::text_of(*owner) == Some(worker@)),
{
    match owner {
        Some(owner) => *owner == *worker,
        None => false,
    }
}

/// Checks a heartbeat against the task.
pub fn validate_heart_beat_operation(task: &Task, utm: &UpdateTaskModel) -> (verdict: Result<
    (),
    ScyllaOperationsError,
>)
    ensures
        verdict_of(verdict) == heart_beat_check(task@, utm@),
{
    if task.status != TaskStatus::Running {
        return Err(
            ScyllaOperationsError::InvalidOperation(
                UpdateOperation::HeartBeat,
                TaskStatus::Running,
                task.status,
            ),
        );
    }
    match &utm.worker {
        Some(worker) => {
            if owned_by(&task.owner, worker) {
                Ok(())
            } else {
                Err(
                    ScyllaOperationsError::ValidationFailed(
                        String::from_str("Only owner can extend the heartbeat."),
                    ),
                )
            }
        },
        None => Ok(()),
    }
}

/// The lease length that the request asks for, in seconds.
fn lease_length(update_task_model: &UpdateTaskModel) -> (secs: i64)
    ensures
        secs == update_task_model@.lease_secs(),
{
    match update_task_model.task_timeout_in_secs {
        Some(secs) => secs,
        None => DEFAULT_TASK_TIMEOUT_IN_SECS,
    }
}

/// Carries out a heartbeat at `now`.
pub fn prepare_heart_beat_task(task: Task, update_task_model: &UpdateTaskModel, now: Timestamp) -> (after:
    Task)
    requires
        now.is_reading(),
    ensures
        after@ == heart_beat_effect(task@, update_task_model@, now@),
{
    let mut task = task;
    task.updated = now;
    task.deadline = Some(now.plus_seconds(lease_length(update_task_model)));
    if let Some(progress) = update_task_model.progress {
        task.progress = progress;
    }
    task
}

/// Checks a lease against the task.
pub fn validate_lease_operation(task: &Task, update_task_model: &UpdateTaskModel) -> (verdict:
    Result<(), ScyllaOperationsError>)
    ensures
        verdict_of(verdict) == lease_check(task@, update_task_model@),
{
    if task.status != TaskStatus::Ready {
        Err(
            ScyllaOperationsError::InvalidOperation(
                UpdateOperation::Lease,
                TaskStatus::Ready,
                task.status,
            ),
        )
    } else if update_task_model.worker.is_none() {
        Err(
            ScyllaOperationsError::MandatoryFieldMissing(
                String::from_str("worker"),
                UpdateOperation::Lease,
            ),
        )
    } else {
        Ok(())
    }
}

/// Carries out a lease at `now`. The request names the worker: that is what
/// [`validate_lease_operation`] has checked.
pub fn prepare_lease_task(task: Task, update_task_model: &UpdateTaskModel, now: Timestamp) -> (after:
    Task)
    requires
        update_task_model.worker is Some,
        now.is_reading(),
    ensures
        after@ == lease_effect(task@, update_task_model@, now@),
{
    let ghost before = task;
    let mut task = task;
    let worker = update_task_model.worker.as_ref().unwrap();
    let event = TaskHistory {
        typ: TaskHistoryType::Assignment,
        time: now,
        worker: worker.clone(),
        progress: Some(Progress::zero()),
    };
    proof {
        events_of_push(before.history@, event);
    }
    task.updated = now;
    task.status = TaskStatus::Running;
    task.owner = Some(worker.clone());
    task.deadline = Some(now.plus_seconds(lease_length(update_task_model)));
    task.history.push(event);
    task
}

/// Checks a reset against the task at `now`.
pub fn validate_reset_operation(task: &Task, now: Timestamp) -> (verdict: Result<
    (),
    ScyllaOperationsError,
>)
    ensures
        verdict_of(verdict) == reset_check(task@, now@),
{
    if task.status != TaskStatus::Running {
        return Err(
            ScyllaOperationsError::InvalidOperation(
                UpdateOperation::Reset,
                TaskStatus::Running,
                task.status,
            ),
        );
    }
    match task.deadline {
        None => Err(
            ScyllaOperationsError::MandatoryFieldMissing(
                String::from_str("deadline"),
                UpdateOperation::Reset,
            ),
        ),
        Some(deadline) => {
            if deadline.is_before(&now) {
                Ok(())
            } else {
                Err(
                    ScyllaOperationsError::ValidationFailed(
                        String::from_str("deadline not yet passed for reset operation"),
                    ),
                )
            }
        },
    }
}

/// Whether the last event of `history` is a yield.
fn last_is_yield(history: &Vec<TaskHistory>) -> (yielded: bool)
    ensures
        yielded == ends_in_yield(events_of(history@)),
{
    let n = history.len();
    n > 0 && history[n - 1].typ == TaskHistoryType::Yield
}

/// Carries out a reset at `now`, on a task that has an owner.
pub fn prepare_reset_task(task: Task, now: Timestamp) -> (after: Task)
    requires
        task.owner is Some,
    ensures
        after@ == reset_effect(task@, now@),
{
    let ghost before = task;
    let yielded = last_is_yield(&task.history);
    let mut task = task;
    if !yielded {
        let event = TaskHistory {
            worker: task.owner.as_ref().unwrap().clone(),
            progress: Some(task.progress),
            typ: TaskHistoryType::Timeout,
            time: now,
        };
        proof {
            events_of_push(before.history@, event);
        }
        task.history.push(event);
    }
    task.deadline = None;
    task.owner = None;
    task.progress = Progress::zero();
    task.status = TaskStatus::Ready;
    task.updated = now;
    task
}

/// The state machine at a given time: checks the request against the task,
/// and carries it out if it is legal.
///
/// A yield and a reset put the task's owner on record, so a task on which
/// one of them is legal at `now` must have one.
pub fn request_handler_at(task: Task, update_task_model: &UpdateTaskModel, now: Timestamp) -> (outcome:
    Result<Task, ScyllaOperationsError>)
    requires
        now.is_reading(),
        owner_on_hand_at(task@, update_task_model.operation, now@),
    ensures
        outcome_of(outcome) == handle(task@, update_task_model@, now@),
{
    match update_task_model.operation {
        UpdateOperation::Status => {
            match validate_status_operation(&task, update_task_model) {
                Ok(_) => Ok(prepare_status_task(task, update_task_model, now)),
                Err(refusal) => Err(refusal),
            }
        },
        UpdateOperation::HeartBeat => {
            match validate_heart_beat_operation(&task, update_task_model) {
                Ok(_) => Ok(prepare_heart_beat_task(task, update_task_model, now)),
                Err(refusal) => Err(refusal),
            }
        },
        UpdateOperation::Yield => {
            match validate_yield_operation(&task) {
                Ok(_) => Ok(prepare_yield_task(task, now)),
                Err(refusal) => Err(refusal),
            }
        },
        UpdateOperation::Lease => {
            match validate_lease_operation(&task, update_task_model) {
                Ok(_) => Ok(prepare_lease_task(task, update_task_model, now)),
                Err(refusal) => Err(refusal),
            }
        },
        UpdateOperation::Reset => {
            match validate_reset_operation(&task, now) {
                Ok(_) => Ok(prepare_reset_task(task, now)),
                Err(refusal) => Err(refusal),
            }
        },
    }
}

/// The state machine: reads the clock, checks the request against the task
/// as of that moment, and carries it out if it is legal.
///
/// A yield and a reset put the task's owner on record. As the moment is not
/// known beforehand, a running task must have an owner under a yield, and
/// under a reset if it has a deadline that can have passed.
pub fn request_handler(task: Task, update_task_model: &UpdateTaskModel) -> (outcome: Result<
    Task,
    ScyllaOperationsError,
>)
    requires
        owner_on_hand(task@, update_task_model.operation),
    ensures
        exists|now: int|
            clock_range(now) && outcome_of(outcome) == #[trigger] handle(
                task@,
                update_task_model@,
                now,
            ),
{
    let now = Timestamp::now();
    request_handler_at(task, update_task_model, now)
}

} // verus!
