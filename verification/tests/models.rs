use scylla_pg::models::{
    AddTaskModel, GetTaskModel, Progress, Task, TaskHistory, TaskHistoryType, TaskStatus,
    TaskStatusExt, UpdateOperation, UpdateTaskModel,
};
use scylla_pg::time::Timestamp;
use scylla_pg::validator::validate_status;

#[test]
fn add_task_model_debug() {
    let atm = AddTaskModel {
        priority: 2,
        queue: String::from("new model"),
        rn: String::from("1.2.3"),
        spec: serde_json::Value::default(),
    };
    assert_eq!(
        format!("{:?}", atm),
        "AddTaskModel { rn: \"1.2.3\", spec: Null, priority: 2, queue: \"new model\" }"
    );
}

#[test]
fn update_task_model_debug() {
    let utm = UpdateTaskModel {
        error: None,
        operation: UpdateOperation::HeartBeat,
        progress: None,
        rn: String::from("1.2.3"),
        status: None,
        worker: None,
        task_timeout_in_secs: None,
    };
    assert_eq!(
        format!("{:?}", utm),
        "UpdateTaskModel { rn: \"1.2.3\", operation: HeartBeat, status: None, error: None, worker: None, progress: None, task_timeout_in_secs: None }"
    );
}

#[test]
fn get_task_model_debug() {
    let gtm = GetTaskModel::default();
    //debug trait
    assert_eq!(
        format!("{:?}", gtm),
        "GetTaskModel { limit: Some(100), queue: None, worker: None, status: None }"
    );
    // default
    let gtm_default = GetTaskModel::default();
    assert_eq!(gtm_default.limit, Some(100));
    assert_eq!(gtm_default.queue, None);
    assert_eq!(gtm_default.status, None);
    assert_eq!(gtm_default.worker, None);
}

#[test]
fn update_operation() {
    // the name as it is shown
    assert_eq!(
        format!("Update Operation is {}", UpdateOperation::HeartBeat.to_string()),
        "Update Operation is HeartBeat"
    );
}

#[test]
fn update_operation_names() {
    assert_eq!(UpdateOperation::Yield.to_string(), "Yield");
    assert_eq!(UpdateOperation::HeartBeat.to_string(), "HeartBeat");
    assert_eq!(UpdateOperation::Status.to_string(), "Status");
    assert_eq!(UpdateOperation::Lease.to_string(), "Lease");
    assert_eq!(UpdateOperation::Reset.to_string(), "Reset");
}

#[test]
fn task_status() {
    // allowed transitions
    assert_eq!(TaskStatus::Aborted.allowed_transitions(), &[]);
    assert_eq!(TaskStatus::Completed.allowed_transitions(), &[]);
    assert_eq!(TaskStatus::Cancelled.allowed_transitions(), &[]);
    assert_eq!(TaskStatus::Ready.allowed_transitions(), &[TaskStatus::Cancelled]);
    assert_eq!(
        TaskStatus::Running.allowed_transitions(),
        &[TaskStatus::Completed, TaskStatus::Cancelled, TaskStatus::Aborted]
    );
    // the name as it is shown
    assert_eq!(
        format!("Task Status is {}", TaskStatus::Running.to_string()),
        "Task Status is Running"
    );

    assert_eq!(format!("{:?}", TaskStatus::Running), "Running");
    assert_ne!(TaskStatus::Running, TaskStatus::Ready);
    assert_eq!(TaskStatus::Running.clone(), TaskStatus::Running);
    assert_eq!(TaskStatus::Running == TaskStatus::Running, true);
    // the name as it is stored, and back
    assert_eq!(TaskStatus::Running.to_stored_name(), "running");
    assert_eq!(validate_status("running").unwrap(), TaskStatus::Running);
    assert_eq!(validate_status("ready").unwrap(), TaskStatus::Ready);
    assert_eq!(validate_status("aborted").unwrap(), TaskStatus::Aborted);
    assert_eq!(validate_status("completed").unwrap(), TaskStatus::Completed);
    assert_eq!(validate_status("cancelled").unwrap(), TaskStatus::Cancelled);
}

#[test]
fn task_status_names_round_trip() {
    let all = [
        TaskStatus::Ready,
        TaskStatus::Running,
        TaskStatus::Completed,
        TaskStatus::Aborted,
        TaskStatus::Cancelled,
    ];
    let shown = ["Ready", "Running", "Completed", "Aborted", "Cancelled"];
    let stored = ["ready", "running", "completed", "aborted", "cancelled"];
    for i in 0..all.len() {
        assert_eq!(all[i].to_string(), shown[i]);
        assert_eq!(all[i].to_stored_name(), stored[i]);
        assert_eq!(validate_status(&all[i].to_stored_name()).unwrap(), all[i]);
    }
}

#[test]
fn terminal_statuses_allow_nothing() {
    for status in [TaskStatus::Completed, TaskStatus::Aborted, TaskStatus::Cancelled] {
        assert!(status.allowed_transitions().is_empty());
    }
    assert!(!TaskStatus::Ready.allowed_transitions().contains(&TaskStatus::Running));
}

#[test]
fn task_history() {
    // debug trait
    let t_now = Timestamp::now();
    assert_eq!(
        format!(
            "{:?}",
            TaskHistory {
                progress: None,
                time: t_now.clone(),
                typ: TaskHistoryType::Assignment,
                worker: String::from("worker1")
            }
        ),
        format!(
            "TaskHistory {{ typ: Assignment, worker: \"worker1\", progress: None, time: {:?} }}",
            t_now
        )
    );
    assert_eq!(format!("{:?}", TaskHistoryType::Assignment), "Assignment");
    assert_ne!(TaskHistoryType::Assignment, TaskHistoryType::Yield);
    assert_eq!(TaskHistoryType::Assignment.clone(), TaskHistoryType::Assignment);
    assert_eq!(TaskHistoryType::Assignment == TaskHistoryType::Assignment, true);
    assert_eq!(TaskHistoryType::Assignment.to_stored_name(), "TaskAssignment");
    assert_eq!(
        TaskHistoryType::from_stored_name("TaskAssignment").unwrap(),
        TaskHistoryType::Assignment
    );
    assert_eq!(
        TaskHistoryType::from_stored_name("TaskTimeout").unwrap(),
        TaskHistoryType::Timeout
    );
    assert_eq!(TaskHistoryType::from_stored_name("TaskYield").unwrap(), TaskHistoryType::Yield);
}

#[test]
fn task_history_type_names_round_trip() {
    for kind in [TaskHistoryType::Assignment, TaskHistoryType::Timeout, TaskHistoryType::Yield] {
        assert_eq!(TaskHistoryType::from_stored_name(&kind.to_stored_name()), Some(kind));
    }
    assert_eq!(TaskHistoryType::Timeout.to_stored_name(), "TaskTimeout");
    assert_eq!(TaskHistoryType::Yield.to_stored_name(), "TaskYield");
    assert_eq!(TaskHistoryType::from_stored_name("Assignment"), None);
    assert_eq!(TaskHistoryType::from_stored_name(""), None);
}

#[test]
fn task() {
    let t_now = Timestamp::now();
    let t = Task { created: t_now, updated: t_now, ..Task::default() };
    // debug trait
    assert_eq!(
        format!("{:?}", t),
        format!(
            "Task {{ rn: \"\", spec: Null, status: Ready, queue: \"\", progress: {1:?}, priority: 0, created: {0:?}, updated: {0:?}, deadline: None, owner: None, errors: [], history: [] }}",
            t_now,
            Progress { bits: 0.0f32.to_bits() }
        )
    );
    // default()
    let t = Task { created: t_now, updated: t_now, ..Task::default() };
    assert_eq!(
        t,
        Task {
            rn: String::default(),
            spec: serde_json::Value::default(),
            status: TaskStatus::Ready,
            queue: String::default(),
            progress: Progress { bits: 0.0f32.to_bits() },
            priority: 0,
            created: t_now,
            updated: t_now,
            deadline: None,
            owner: None,
            errors: Vec::default(),
            history: Vec::default(),
        }
    )
}

#[test]
fn fresh_task_holds_the_null_document() {
    let null: serde_json::Value = serde_json::from_str("null").unwrap();
    assert_eq!(Task::default().spec, null);
    assert!(Task::default().spec.is_null());
}

#[test]
fn zero_progress_is_the_number_zero() {
    assert_eq!(f32::from_bits(Progress::zero().bits), 0.0);
    assert_eq!(Task::default().progress, Progress::zero());
}
