//! What holds of the task lifecycle, whatever the task and the request.

use crate::error::ScyllaOperationsErrorView;
use crate::models::{
    Progress, TaskHistoryType, TaskHistoryView, TaskStatus, TaskView, UpdateOperation,
    UpdateTaskModelView,
};
use crate::update_task::{
    ends_in_yield, handle, missing, owner_on_hand, owner_on_hand_at, seconds_after, wrong_status,
};
use vstd::prelude::*;

verus! {

/// Whether `longer` starts with all of `shorter`, in order.
pub open spec fn extends<A>(longer: Seq<A>, shorter: Seq<A>) -> bool {
    shorter.len() <= longer.len() && longer.take(shorter.len() as int) == shorter
}

/// A terminal status allows no transition.
pub proof fn terminal_status_allows_no_transition(status: TaskStatus)
    requires
        status.is_terminal(),
    ensures
        status.transitions() == Seq::<TaskStatus>::empty(),
{
}

/// A task that has ended stays as it is: every request against it is refused.
pub proof fn ended_task_refuses_every_request(task: TaskView, req: UpdateTaskModelView, now: int)
    requires
        task.status.is_terminal(),
    ensures
        handle(task, req, now) is Err,
{
}

/// A status operation never makes a task run: `Ready` to `Running` is a lease's work.
pub proof fn status_operation_never_starts_a_task(
    task: TaskView,
    req: UpdateTaskModelView,
    now: int,
)
    requires
        req.operation == UpdateOperation::Status,
        handle(task, req, now) is Ok,
    ensures
        handle(task, req, now)->Ok_0.status.is_terminal(),
        task.status.transitions().contains(handle(task, req, now)->Ok_0.status),
{
}

/// A task is aborted only with a failure record, and the record is then the
/// last of the task's errors. No other status operation touches the errors.
pub proof fn abort_records_the_failure(task: TaskView, req: UpdateTaskModelView, now: int)
    requires
        req.operation == UpdateOperation::Status,
        task.status == TaskStatus::Running,
        req.status is Some,
    ensures
        req.status->0 == TaskStatus::Aborted && req.error is None ==> handle(task, req, now)
            == Err::<TaskView, _>(missing("error"@, UpdateOperation::Status)),
        req.status->0 == TaskStatus::Aborted && req.error is Some ==> handle(task, req, now) is Ok
            && handle(task, req, now)->Ok_0.errors == task.errors.push(req.error->0),
        req.status->0 != TaskStatus::Aborted && handle(task, req, now) is Ok ==> handle(
            task,
            req,
            now,
        )->Ok_0.errors == task.errors,
{
}

/// A lease succeeds exactly on a ready task with a worker named. The task
/// then runs and belongs to the worker, one assignment is added to its
/// history, and its deadline is the lease length after `now`: in the future
/// where the lease length is positive, as the default is.
pub proof fn lease_succeeds_exactly_on_ready_task_with_worker(
    task: TaskView,
    req: UpdateTaskModelView,
    now: int,
)
    requires
        req.operation == UpdateOperation::Lease,
    ensures
        handle(task, req, now) is Ok <==> task.status == TaskStatus::Ready && req.worker is Some,
        handle(task, req, now) matches Ok(leased) ==> {
            &&& leased.status == TaskStatus::Running
            &&& leased.owner == req.worker
            &&& leased.history == task.history.push(
                TaskHistoryView {
                    typ: TaskHistoryType::Assignment,
                    worker: req.worker->0,
                    progress: Some(Progress::none_yet()),
                    time: now,
                },
            )
            &&& leased.deadline == Some(seconds_after(now, req.lease_secs()))
            &&& req.lease_secs() > 0 ==> leased.deadline->0 > now
            &&& req.task_timeout_in_secs is None ==> leased.deadline->0 > now
        },
{
}

/// A heartbeat on a task that does not run is refused as an invalid
/// operation. On a running task it changes neither status nor owner nor
/// history, and it is refused only where the request names a worker who is
/// not the owner.
pub proof fn heart_beat_only_extends_the_lease(task: TaskView, req: UpdateTaskModelView, now: int)
    requires
        req.operation == UpdateOperation::HeartBeat,
    ensures
        task.status != TaskStatus::Running ==> handle(task, req, now) == Err::<TaskView, _>(
            wrong_status(UpdateOperation::HeartBeat, TaskStatus::Running, task.status),
        ),
        task.status == TaskStatus::Running ==> (handle(task, req, now) is Ok <==> (req.worker
            is None || req.worker == task.owner)),
        handle(task, req, now) matches Ok(beaten) ==> {
            &&& beaten.status == task.status
            &&& beaten.owner == task.owner
            &&& beaten.history == task.history
            &&& beaten.deadline == Some(seconds_after(now, req.lease_secs()))
        },
{
}

/// A yield on a running task succeeds. The task still runs, its deadline
/// lies before `now`, and one yield is added to its history.
pub proof fn yield_expires_the_lease(task: TaskView, req: UpdateTaskModelView, now: int)
    requires
        req.operation == UpdateOperation::Yield,
        task.status == TaskStatus::Running,
    ensures
        handle(task, req, now) matches Ok(yielded) && {
            &&& yielded.status == TaskStatus::Running
            &&& yielded.owner == task.owner
            &&& yielded.deadline is Some
            &&& yielded.deadline->0 < now
            &&& yielded.history.len() == task.history.len() + 1
            &&& yielded.history.drop_last() == task.history
            &&& yielded.history.last().typ == TaskHistoryType::Yield
            &&& yielded.history.last().worker == task.owner->0
            &&& yielded.history.last().progress == Some(task.progress)
        },
{
}

/// A reset of a running task is refused for want of a deadline, and as not
/// yet due while the deadline has not passed. Otherwise it succeeds: the
/// task is ready, has neither owner nor deadline nor progress, and its
/// history has one timeout more, unless its last event was a yield, in
/// which case the history is as it was.
pub proof fn reset_takes_back_an_expired_lease(task: TaskView, req: UpdateTaskModelView, now: int)
    requires
        req.operation == UpdateOperation::Reset,
        task.status == TaskStatus::Running,
    ensures
        task.deadline is None ==> handle(task, req, now) == Err::<TaskView, _>(
            missing("deadline"@, UpdateOperation::Reset),
        ),
        task.deadline is Some && task.deadline->0 >= now ==> handle(task, req, now) == Err::<
            TaskView,
            _,
        >(
            ScyllaOperationsErrorView::ValidationFailed(
                "deadline not yet passed for reset operation"@,
            ),
        ),
        task.deadline is Some && task.deadline->0 < now ==> handle(task, req, now) is Ok,
        handle(task, req, now) matches Ok(ready) ==> {
            &&& ready.status == TaskStatus::Ready
            &&& ready.owner is None
            &&& ready.deadline is None
            &&& ready.progress == Progress::none_yet()
            &&& ends_in_yield(task.history) ==> ready.history == task.history
            &&& !ends_in_yield(task.history) ==> ready.history == task.history.push(
                TaskHistoryView {
                    typ: TaskHistoryType::Timeout,
                    worker: task.owner->0,
                    progress: Some(task.progress),
                    time: now,
                },
            )
        },
{
}

/// A reset of a task that does not run is refused as an invalid operation,
/// wherever its deadline lies.
pub proof fn reset_needs_a_running_task(task: TaskView, req: UpdateTaskModelView, now: int)
    requires
        req.operation == UpdateOperation::Reset,
        task.status != TaskStatus::Running,
    ensures
        handle(task, req, now) == Err::<TaskView, _>(
            wrong_status(UpdateOperation::Reset, TaskStatus::Running, task.status),
        ),
{
}

/// No operation changes what a task is: its name, payload, queue, priority
/// and time of creation stay. Every operation stamps the task with `now`.
pub proof fn identity_is_kept(task: TaskView, req: UpdateTaskModelView, now: int)
    requires
        handle(task, req, now) is Ok,
    ensures
        handle(task, req, now)->Ok_0.rn == task.rn,
        handle(task, req, now)->Ok_0.spec == task.spec,
        handle(task, req, now)->Ok_0.queue == task.queue,
        handle(task, req, now)->Ok_0.priority == task.priority,
        handle(task, req, now)->Ok_0.created == task.created,
        handle(task, req, now)->Ok_0.updated == now,
{
}

/// History and errors only grow: whatever was on record stays on record, in
/// its place, and an operation adds one entry at most to each.
pub proof fn records_only_grow(task: TaskView, req: UpdateTaskModelView, now: int)
    requires
        handle(task, req, now) is Ok,
    ensures
        extends(handle(task, req, now)->Ok_0.history, task.history),
        extends(handle(task, req, now)->Ok_0.errors, task.errors),
        handle(task, req, now)->Ok_0.history.len() <= task.history.len() + 1,
        handle(task, req, now)->Ok_0.errors.len() <= task.errors.len() + 1,
{
    let after = handle(task, req, now)->Ok_0;
    assert(after.history.take(task.history.len() as int) =~= task.history);
    assert(after.errors.take(task.errors.len() as int) =~= task.errors);
}

/// Every operation keeps a task well formed: a task that runs has an owner
/// and a deadline, before the operation and after it, and a task that is
/// ready has neither.
pub proof fn well_formed_task_stays_well_formed(task: TaskView, req: UpdateTaskModelView, now: int)
    requires
        task.well_formed(),
        handle(task, req, now) is Ok,
    ensures
        handle(task, req, now)->Ok_0.well_formed(),
{
}

/// A well-formed task has its owner on hand for every operation, at every
/// moment: the state machine asks nothing of it.
pub proof fn well_formed_task_has_its_owner_on_hand(
    task: TaskView,
    operation: UpdateOperation,
    now: int,
)
    requires
        task.well_formed(),
    ensures
        owner_on_hand(task, operation),
        owner_on_hand_at(task, operation, now),
{
}

/// A lease, a yield and a reset leave a task well formed even where they
/// did not find it so: after a lease and a yield the task runs with owner
/// and deadline, and a reset takes both away.
pub proof fn lease_yield_and_reset_leave_a_task_well_formed(
    task: TaskView,
    req: UpdateTaskModelView,
    now: int,
)
    requires
        req.operation == UpdateOperation::Lease || req.operation == UpdateOperation::Reset
            || req.operation == UpdateOperation::Yield,
        owner_on_hand_at(task, req.operation, now),
        handle(task, req, now) is Ok,
    ensures
        handle(task, req, now)->Ok_0.well_formed(),
{
}

/// A task leaves `Ready` by a lease or a cancellation, and comes back to it
/// by a reset alone; with it go owner and deadline.
pub proof fn ready_task_is_unowned_after_reset(task: TaskView, req: UpdateTaskModelView, now: int)
    requires
        handle(task, req, now) is Ok,
        handle(task, req, now)->Ok_0.status == TaskStatus::Ready,
    ensures
        req.operation == UpdateOperation::Reset,
        handle(task, req, now)->Ok_0.owner is None,
        handle(task, req, now)->Ok_0.deadline is None,
{
}

/// A task is leased to one worker at a time: whoever asks for a task that
/// has been leased, and whenever, is refused, as the task runs.
pub proof fn leased_task_is_not_leased_again(
    task: TaskView,
    first: UpdateTaskModelView,
    second: UpdateTaskModelView,
    now: int,
    later: int,
)
    requires
        first.operation == UpdateOperation::Lease,
        second.operation == UpdateOperation::Lease,
        handle(task, first, now) is Ok,
    ensures
        handle(handle(task, first, now)->Ok_0, second, later) == Err::<TaskView, _>(
            wrong_status(UpdateOperation::Lease, TaskStatus::Ready, TaskStatus::Running),
        ),
{
}

/// A lease that has been yielded can be taken back at once: the reset is
/// legal at every moment from the yield on, and leaves the history as the
/// yield left it.
pub proof fn yielded_task_can_be_reset(
    task: TaskView,
    give_back: UpdateTaskModelView,
    reset: UpdateTaskModelView,
    now: int,
    later: int,
)
    requires
        give_back.operation == UpdateOperation::Yield,
        reset.operation == UpdateOperation::Reset,
        handle(task, give_back, now) is Ok,
        now <= later,
    ensures
        handle(handle(task, give_back, now)->Ok_0, reset, later) is Ok,
        handle(handle(task, give_back, now)->Ok_0, reset, later)->Ok_0.history == handle(
            task,
            give_back,
            now,
        )->Ok_0.history,
        handle(handle(task, give_back, now)->Ok_0, reset, later)->Ok_0.status
            == TaskStatus::Ready,
{
}

} // verus!
