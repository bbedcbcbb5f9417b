//! What the monitor needs: how often it sweeps, how long ended tasks are
//! kept, and which leases have run out.

use crate::models::{Task, TaskStatus, TaskView, UpdateOperation, UpdateTaskModelView};
use crate::number::{i64_value, parse_i64, parse_u64, u64_value};
use crate::time::{clock_range, Timestamp};
use crate::update_task::handle;
use vstd::prelude::*;
use vstd::string::StringExecFns;

verus! {

/// The monitor's settings.
#[derive(Debug, Clone, Copy, PartialEq, Eq)]
pub struct PGMonitorConfig {
    /// The pause between two sweeps, in seconds.
    pub poll_interval: u64,
    /// How long an ended task is kept after its last update, in seconds.
    pub task_retention_time: i64,
}

impl Default for PGMonitorConfig {
    /// No pause between sweeps, and nothing kept.
    fn default() -> (config: PGMonitorConfig)
        ensures
            config.poll_interval == 0,
            config.task_retention_time == 0,
    {
        PGMonitorConfig { poll_interval: 0, task_retention_time: 0 }
    }
}

/// The settings that two texts write, or what is wrong with the first text
/// that writes none.
pub open spec fn settings_of(poll_interval: Seq<char>, task_retention_time: Seq<char>) -> Result<
    PGMonitorConfig,
    Seq<char>,
> {
    match u64_value(poll_interval) {
        None => Err("u64 expected for MONITOR_POLLING_INTERVAL_IN_SECS"@),
        Some(poll_interval) => match i64_value(task_retention_time) {
            None => Err("i64 expected for MONITOR_TASK_RETENTION_PERIOD_IN_SECS"@),
            Some(task_retention_time) => Ok(PGMonitorConfig { poll_interval, task_retention_time }),
        },
    }
}

/// The value of settings or a complaint.
pub open spec fn settings_view(r: Result<PGMonitorConfig, String>) -> Result<
    PGMonitorConfig,
    Seq<char>,
> {
    match r {
        Ok(config) => Ok(config),
        Err(complaint) => Err(complaint@),
    }
}

impl PGMonitorConfig {
    /// The settings that the environment holds, given what it holds under
    /// `MONITOR_POLLING_INTERVAL_IN_SECS` and under
    /// `MONITOR_TASK_RETENTION_PERIOD_IN_SECS`: two numbers in decimal
    /// text. Where one of them is no number of its type, the error says
    /// which.
    pub fn from_env(poll_interval: &str, task_retention_time: &str) -> (config: Result<
        PGMonitorConfig,
        String,
    >)
        ensures
            settings_view(config) == settings_of(poll_interval@, task_retention_time@),
    {
        let poll_interval = match parse_u64(poll_interval) {
            Some(secs) => secs,
            None => {
                return Err(String::from_str("u64 expected for MONITOR_POLLING_INTERVAL_IN_SECS"));
            },
        };
        let task_retention_time = match parse_i64(task_retention_time) {
            Some(secs) => secs,
            None => {
                return Err(
                    String::from_str("i64 expected for MONITOR_TASK_RETENTION_PERIOD_IN_SECS"),
                );
            },
        };
        Ok(PGMonitorConfig { poll_interval, task_retention_time })
    }
}

/// Whether the task's lease has run out at `now`: it has a deadline, and the
/// deadline lies before `now`.
pub open spec fn expired_at(task: TaskView, now: int) -> bool {
    task.deadline is Some && task.deadline->0 < now
}

/// The tasks of `tasks` whose lease has run out at `now`, in their order.
pub open spec fn expired_of(tasks: Seq<Task>, now: int) -> Seq<Task>
    decreases tasks.len(),
{
    if tasks.len() == 0 {
        tasks
    } else if expired_at(tasks.last()@, now) {
        expired_of(tasks.drop_last(), now).push(tasks.last())
    } else {
        expired_of(tasks.drop_last(), now)
    }
}

/// Keeps the tasks whose lease has run out at `now`.
pub fn filter_expired_tasks_at(tasks: Vec<Task>, now: Timestamp) -> (expired: Vec<Task>)
    ensures
        expired@ == expired_of(tasks@, now@),
{
    let ghost all = tasks@;
    let mut expired: Vec<Task> = Vec::new();
    for task in it: tasks
        invariant
            it.seq() == all,
            expired@ == expired_of(all.take(it.index() as int), now@),
    {
        let ghost before = all.take(it.index() as int);
        let ghost after = all.take(it.index() + 1);
        assert(after.drop_last() == before);
        assert(after.last() == task);
        let due = match task.deadline {
            Some(deadline) => deadline.is_before(&now),
            None => false,
        };
        if due {
            expired.push(task);
        }
    }
    assert(all.take(all.len() as int) == all);
    expired
}

/// Keeps the tasks whose lease has run out as of now.
pub fn filter_expired_tasks(tasks: Vec<Task>) -> (expired: Vec<Task>)
    ensures
        exists|now: int| clock_range(now) && expired@ == #[trigger] expired_of(tasks@, now),
{
    let now = Timestamp::now();
    filter_expired_tasks_at(tasks, now)
}

/// Nothing but expired tasks is kept, and every kept task was there.
pub proof fn expired_tasks_are_a_selection(tasks: Seq<Task>, now: int)
    ensures
        expired_of(tasks, now).len() <= tasks.len(),
        forall|i: int|
            0 <= i < expired_of(tasks, now).len() ==> expired_at(
                (#[trigger] expired_of(tasks, now)[i])@,
                now,
            ) && tasks.contains(expired_of(tasks, now)[i]),
        forall|i: int|
            0 <= i < tasks.len() && expired_at(tasks[i]@, now) ==> expired_of(
                tasks,
                now,
            ).contains(#[trigger] tasks[i]),
    decreases tasks.len(),
{
    if tasks.len() > 0 {
        let rest = tasks.drop_last();
        expired_tasks_are_a_selection(rest, now);
        let kept = expired_of(tasks, now);
        let kept_rest = expired_of(rest, now);
        assert forall|i: int| 0 <= i < kept.len() implies expired_at((#[trigger] kept[i])@, now)
            && tasks.contains(kept[i]) by {
            if i < kept_rest.len() {
                assert(kept[i] == kept_rest[i]);
                let j = choose|j: int| 0 <= j < rest.len() && rest[j] == kept_rest[i];
                assert(tasks[j] == kept[i]);
            } else {
                assert(kept[i] == tasks.last());
                assert(tasks[tasks.len() - 1] == kept[i]);
            }
        }
        assert forall|i: int| 0 <= i < tasks.len() && expired_at(tasks[i]@, now) implies kept.contains(
            #[trigger] tasks[i],
        ) by {
            if i < rest.len() {
                assert(rest[i] == tasks[i]);
                assert(kept_rest.contains(rest[i]));
                let j = choose|j: int| 0 <= j < kept_rest.len() && kept_rest[j] == rest[i];
                assert(kept[j] == tasks[i]);
            } else {
                assert(kept[kept.len() - 1] == tasks[i]);
            }
        }
    }
}

/// A running task whose lease has run out can be reset at the time of the
/// sweep that finds it. Once reset, it is not found again by a later sweep:
/// it is ready, it has no deadline left to run out, and a second reset of
/// it is refused.
pub proof fn swept_task_does_not_come_back(
    task: TaskView,
    reset: UpdateTaskModelView,
    second: UpdateTaskModelView,
    now: int,
    later: int,
)
    requires
        reset.operation == UpdateOperation::Reset,
        second.operation == UpdateOperation::Reset,
        task.status == TaskStatus::Running,
        expired_at(task, now),
    ensures
        handle(task, reset, now) is Ok,
        handle(task, reset, now)->Ok_0.status == TaskStatus::Ready,
        !expired_at(handle(task, reset, now)->Ok_0, later),
        handle(handle(task, reset, now)->Ok_0, second, later) is Err,
{
}

} // verus!
