use scylla_pg::adapter_utils::{
    handle_insert_return, handle_query_by_rn_return, handle_update_return, prepare_delete_batch,
    prepare_lease_batch, prepare_query_task, LeaseBatchParams, QueryParams,
};
use scylla_pg::models::{
    GetTaskModel, Progress, Task, TaskHistory, TaskHistoryType, TaskStatus, UpdateOperation,
    UpdateTaskModel,
};
use scylla_pg::pg_error::PgAdapterError;
use scylla_pg::time::Timestamp;
use scylla_pg::update_task::request_handler_at;

#[test]
fn tests_handle_insert_return_cases() {
    let original_task = Task { rn: "123".to_string(), ..Task::default() };

    assert_eq!(handle_insert_return(&vec![], &original_task).is_err(), true);
    assert_eq!(
        handle_insert_return(&vec![], &original_task).unwrap_err().to_string(),
        PgAdapterError::DuplicateTask(original_task.rn.to_owned()).to_string()
    );
    let ret_t = Task {
        rn: "123".to_string(),
        status: scylla_pg::models::TaskStatus::Running,
        ..Task::default()
    };
    // In case single item is returned from db. That will be retruned back
    assert_eq!(*handle_insert_return(&vec![ret_t.clone()], &original_task).unwrap(), ret_t);
}

#[test]
fn adapter_utils_handle_insert_return_cases() {
    let original_task = Task { rn: "123".to_string(), ..Task::default() };

    assert!(handle_insert_return(&[], &original_task).is_err());
    assert_eq!(
        handle_insert_return(&[], &original_task).unwrap_err().to_string(),
        PgAdapterError::DuplicateTask(original_task.rn.to_owned()).to_string()
    );
    let ret_t = Task {
        rn: "123".to_string(),
        status: scylla_pg::models::TaskStatus::Running,
        ..Task::default()
    };
    // In case single item is returned from db. That will be retruned back
    assert_eq!(*handle_insert_return(&[ret_t.clone()], &original_task).unwrap(), ret_t);
}

#[test]
fn handle_update_return_cases() {
    let original_t = Task { rn: "123".to_string(), ..Task::default() };
    let empty_vec = Vec::new();
    let resp = handle_update_return(&empty_vec, &original_t);
    assert!(resp.is_err());
    assert_eq!(
        resp.unwrap_err().to_string(),
        PgAdapterError::NoTaskFound(original_t.rn.to_owned()).to_string()
    );
    let ret_t = Task { rn: "123".to_string(), status: TaskStatus::Running, ..Task::default() };
    assert_eq!(*handle_update_return(&[ret_t.clone()], &original_t).unwrap(), ret_t)
}

#[test]
fn prepare_query_task_cases() {
    // default values
    let gtm = GetTaskModel {
        status: None,
        queue: None,
        worker: None,
        limit: None,
    };
    assert_eq!(
        prepare_query_task(&gtm),
        QueryParams {
            status: "%".to_string(),
            queue: "%".to_string(),
            worker: "%".to_string(),
            limit: 100
        }
    );
    // Everything passed
    let gtm = GetTaskModel {
        status: Some(TaskStatus::Cancelled),
        queue: Some("abc".to_string()),
        worker: Some("s".to_string()),
        limit: Some(20),
    };
    assert_eq!(
        prepare_query_task(&gtm),
        QueryParams {
            status: "cancelled".to_string(),
            queue: "abc".to_string(),
            worker: "s".to_string(),
            limit: 20
        }
    );
}

#[test]
fn handle_query_by_rn_return_cases() {
    let original_t = Task { rn: "123".to_string(), ..Task::default() };
    let empty_vec = Vec::new();
    let resp = handle_query_by_rn_return(&empty_vec, &original_t.rn);
    assert!(resp.is_err());
    assert_eq!(
        resp.unwrap_err().to_string(),
        PgAdapterError::NoTaskFound(original_t.rn.to_owned()).to_string()
    );
    let ret_t = Task { rn: "123".to_string(), status: TaskStatus::Running, ..Task::default() };
    assert_eq!(*handle_query_by_rn_return(&[ret_t.clone()], &original_t.rn).unwrap(), ret_t)
}

#[test]
fn missing_rows_name_the_task() {
    let original = Task { rn: "t-404".to_string(), ..Task::default() };
    match handle_insert_return(&[], &original) {
        Err(PgAdapterError::DuplicateTask(rn)) => assert_eq!(rn, "t-404"),
        other => panic!("unexpected: {:?}", other),
    }
    match handle_update_return(&[], &original) {
        Err(PgAdapterError::NoTaskFound(rn)) => assert_eq!(rn, "t-404"),
        other => panic!("unexpected: {:?}", other),
    }
    match handle_query_by_rn_return(&[], "t-405") {
        Err(PgAdapterError::NoTaskFound(rn)) => assert_eq!(rn, "t-405"),
        other => panic!("unexpected: {:?}", other),
    }
}

#[test]
fn query_filter_uses_stored_status_names() {
    let names = [
        (TaskStatus::Ready, "ready"),
        (TaskStatus::Running, "running"),
        (TaskStatus::Completed, "completed"),
        (TaskStatus::Aborted, "aborted"),
        (TaskStatus::Cancelled, "cancelled"),
    ];
    for (status, name) in names {
        let gtm = GetTaskModel { status: Some(status), ..GetTaskModel::default() };
        let params = prepare_query_task(&gtm);
        assert_eq!(params.status, name);
        assert_eq!(params.limit, 100);
    }
    let gtm = GetTaskModel { limit: Some(-5), queue: None, worker: None, status: None };
    assert_eq!(prepare_query_task(&gtm).limit, -5);
}

#[test]
fn batch_lease_writes_what_a_single_lease_writes() {
    let now = Timestamp::from_parts(2_000, 500);
    let params = prepare_lease_batch("q".to_string(), 5, "w1".to_string(), 30, now);
    assert_eq!(
        params,
        LeaseBatchParams {
            queue: "q".to_string(),
            limit: 5,
            worker: "w1".to_string(),
            deadline: Timestamp { nanos: 2_030_000_000_500 },
            updated: now,
            history: TaskHistory {
                typ: TaskHistoryType::Assignment,
                worker: "w1".to_string(),
                progress: Some(Progress { bits: 0.0f32.to_bits() }),
                time: now,
            },
        }
    );
    let utm = UpdateTaskModel {
        rn: "t".to_string(),
        operation: UpdateOperation::Lease,
        status: None,
        error: None,
        worker: Some("w1".to_string()),
        progress: None,
        task_timeout_in_secs: Some(30),
    };
    let leased = request_handler_at(Task::default(), &utm, now).unwrap();
    assert_eq!(leased.owner, Some(params.worker));
    assert_eq!(leased.deadline, Some(params.deadline));
    assert_eq!(leased.updated, params.updated);
    assert_eq!(leased.history, vec![params.history]);
}

#[test]
fn retention_cutoff_lies_before_now() {
    let now = Timestamp::from_parts(10_000, 0);
    assert_eq!(prepare_delete_batch(8_600, now), Timestamp { nanos: 1_400_000_000_000 });
    assert_eq!(prepare_delete_batch(0, now), now);
    assert_eq!(prepare_delete_batch(-1, now), Timestamp { nanos: 10_001_000_000_000 });
}
