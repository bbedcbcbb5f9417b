//! The two operations on a task: making one, and changing one.

use crate::error::ScyllaOperationsError;
use crate::models::{
    AddTaskModel, Progress, Task, TaskErrorView, TaskHistoryView, TaskStatus, UpdateTaskModel,
};
use crate::time::{clock_range, Timestamp};
use crate::update_task::{handle, outcome_of, owner_on_hand, request_handler};
use vstd::prelude::*;

verus! {

/// The operations on tasks that need no store.
pub struct ScyllaOperations {}

impl ScyllaOperations {
    /// The task that a caller's model asks for: ready, unowned, without
    /// progress, errors or history, created and updated now.
    pub fn add_task_operation(add_task_model: &AddTaskModel) -> (task: Task)
        ensures
            task@.rn == add_task_model.rn@,
            task@.spec == add_task_model.spec,
            task@.queue == add_task_model.queue@,
            task@.priority == add_task_model.priority,
            task@.status == TaskStatus::Ready,
            task@.progress == Progress::none_yet(),
            task@.owner is None,
            task@.deadline is None,
            task@.errors == Seq::<TaskErrorView>::empty(),
            task@.history == Seq::<TaskHistoryView>::empty(),
            clock_range(task@.created),
            clock_range(task@.updated),
            task@.well_formed(),
    {
        Task {
            rn: add_task_model.rn.clone(),
            spec: add_task_model.spec.clone(),
            status: TaskStatus::Ready,
            queue: add_task_model.queue.clone(),
            progress: Progress::zero(),
            priority: add_task_model.priority,
            created: Timestamp::now(),
            updated: Timestamp::now(),
            deadline: None,
            owner: None,
            errors: Vec::new(),
            history: Vec::new(),
        }
    }

    /// Checks the request against the task as of now, and carries it out if
    /// it is legal.
    pub fn update_task_operation(update_task_model: &UpdateTaskModel, task_to_update: Task) -> (outcome:
        Result<Task, ScyllaOperationsError>)
        requires
            owner_on_hand(task_to_update@, update_task_model.operation),
        ensures
            exists|now: int|
                clock_range(now) && outcome_of(outcome) == #[trigger] handle(
                    task_to_update@,
                    update_task_model@,
                    now,
                ),
    {
        request_handler(task_to_update, update_task_model)
    }
}

} // verus!
