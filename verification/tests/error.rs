use scylla_pg::error::ScyllaOperationsError;
use scylla_pg::models::{TaskStatus, UpdateOperation};
use scylla_pg::pg_error::PgAdapterError;

#[test]
fn error_scylla_operations_error_print_checks() {
    assert_eq!(ScyllaOperationsError::InvalidStatusTransition(TaskStatus::Ready, vec![TaskStatus::Running, TaskStatus::Aborted]).to_string(), "Invalid status passed. Current task status is Ready. Allowed status transitions are [Running, Aborted]".to_string());
    assert_eq!(ScyllaOperationsError::TerminalTaskStatus(TaskStatus::Ready, vec![TaskStatus::Running, TaskStatus::Aborted]).to_string(), "Task is in terminal status: Ready. It should be in one of the non-terminal status [Running, Aborted].".to_string());
    assert_eq!(ScyllaOperationsError::MandatoryFieldMissing("error".to_string(), UpdateOperation::Lease).to_string(), "Mandatory field missing error for operation Lease".to_string());
    assert_eq!(ScyllaOperationsError::InvalidOperation(UpdateOperation::Yield, TaskStatus::Completed, TaskStatus::Running).to_string(), "Invalid Operation: Yield. Task should be in Completed status. Current task status is Running.".to_string());
    assert_eq!(ScyllaOperationsError::ValidationFailed("field validation failed".to_string()).to_string(), "Validation failed: field validation failed".to_string());

    // the same checks on the errors of the persistence engine
    assert_eq!(PgAdapterError::ScyllaOpsError(ScyllaOperationsError::ValidationFailed("Field validation failed".to_string())).to_string(), "Validation failed: Field validation failed".to_string());
    assert_eq!(PgAdapterError::DuplicateTask("sample".to_string()).to_string(), "Task already exist for sample".to_string());
    assert_eq!(PgAdapterError::NoTaskFound("sample".to_string()).to_string(), "No task found for sample".to_string());
    assert_eq!(format!("{:?}", PgAdapterError::DuplicateTask("sample".to_string())), "DuplicateTask(\"sample\")".to_string());
}

#[test]
fn status_lists_are_written_in_brackets() {
    assert_eq!(
        ScyllaOperationsError::InvalidStatusTransition(TaskStatus::Completed, vec![]).to_string(),
        "Invalid status passed. Current task status is Completed. Allowed status transitions are []"
    );
    assert_eq!(
        ScyllaOperationsError::InvalidStatusTransition(
            TaskStatus::Ready,
            vec![TaskStatus::Cancelled]
        )
        .to_string(),
        "Invalid status passed. Current task status is Ready. Allowed status transitions are [Cancelled]"
    );
    assert_eq!(
        ScyllaOperationsError::TerminalTaskStatus(
            TaskStatus::Aborted,
            vec![TaskStatus::Ready, TaskStatus::Running, TaskStatus::Cancelled]
        )
        .to_string(),
        "Task is in terminal status: Aborted. It should be in one of the non-terminal status [Ready, Running, Cancelled]."
    );
}

#[test]
fn refusal_becomes_an_error_of_the_engine() {
    let refusal = ScyllaOperationsError::MandatoryFieldMissing(
        "worker".to_string(),
        UpdateOperation::Lease,
    );
    match PgAdapterError::from(refusal) {
        PgAdapterError::ScyllaOpsError(inner) => assert_eq!(
            inner,
            ScyllaOperationsError::MandatoryFieldMissing(
                "worker".to_string(),
                UpdateOperation::Lease
            )
        ),
        other => panic!("unexpected error: {:?}", other),
    }
}
