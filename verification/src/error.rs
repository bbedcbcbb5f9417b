//! Why the state machine turns a request down.

use crate::models::{TaskStatus, UpdateOperation};
use vstd::prelude::*;
use vstd::string::StringExecFns;

verus! {

/// A request that the state machine refuses. The caller can mend the request;
/// nothing here is retried.
#[derive(Debug, PartialEq, Eq)]
pub enum ScyllaOperationsError {
    /// The target status cannot be reached from the current one: the current
    /// status, and the statuses that can.
    InvalidStatusTransition(TaskStatus, Vec<TaskStatus>),
    /// The task has ended: its status, and the statuses that have not.
    TerminalTaskStatus(TaskStatus, Vec<TaskStatus>),
    /// The operation needs a field that is missing: the field, and the operation.
    MandatoryFieldMissing(String, UpdateOperation),
    /// The operation does not apply in the task's status: the operation, the
    /// status it needs, and the status it found.
    InvalidOperation(UpdateOperation, TaskStatus, TaskStatus),
    /// Another rule is broken: the reason.
    ValidationFailed(String),
}

/// The mathematical value of a [`ScyllaOperationsError`].
pub enum ScyllaOperationsErrorView {
    InvalidStatusTransition(TaskStatus, Seq<TaskStatus>),
    TerminalTaskStatus(TaskStatus, Seq<TaskStatus>),
    MandatoryFieldMissing(Seq<char>, UpdateOperation),
    InvalidOperation(UpdateOperation, TaskStatus, TaskStatus),
    ValidationFailed(Seq<char>),
}

impl View for ScyllaOperationsError {
    type V = ScyllaOperationsErrorView;

    open spec fn view(&self) -> ScyllaOperationsErrorView {
        match self {
            ScyllaOperationsError::InvalidStatusTransition(current, allowed) =>
                ScyllaOperationsErrorView::InvalidStatusTransition(*current, allowed@),
            ScyllaOperationsError::TerminalTaskStatus(current, open) =>
                ScyllaOperationsErrorView::TerminalTaskStatus(*current, open@),
            ScyllaOperationsError::MandatoryFieldMissing(field, operation) =>
                ScyllaOperationsErrorView::MandatoryFieldMissing(field@, *operation),
            ScyllaOperationsError::InvalidOperation(operation, needed, found) =>
                ScyllaOperationsErrorView::InvalidOperation(*operation, *needed, *found),
            ScyllaOperationsError::ValidationFailed(reason) =>
                ScyllaOperationsErrorView::ValidationFailed(reason@),
        }
    }
}

/// The names of `statuses`, separated by a comma and a space.
pub open spec fn joined_names(statuses: Seq<TaskStatus>) -> Seq<char>
    decreases statuses.len(),
{
    if statuses.len() == 0 {
        Seq::<char>::empty()
    } else if statuses.len() == 1 {
        statuses[0].name()
    } else {
        joined_names(statuses.drop_last()) + ", "@ + statuses.last().name()
    }
}

/// A list of statuses as text: the names in square brackets.
pub open spec fn list_text(statuses: Seq<TaskStatus>) -> Seq<char> {
    "["@ + joined_names(statuses) + "]"@
}

impl ScyllaOperationsErrorView {
    /// The message that tells a person what went wrong.
    pub open spec fn message(self) -> Seq<char> {
        match self {
            ScyllaOperationsErrorView::InvalidStatusTransition(current, allowed) =>
                "Invalid status passed. Current task status is "@ + current.name()
                    + ". Allowed status transitions are "@ + list_text(allowed),
            ScyllaOperationsErrorView::TerminalTaskStatus(current, open) =>
                "Task is in terminal status: "@ + current.name()
                    + ". It should be in one of the non-terminal status "@ + list_text(open)
                    + "."@,
            ScyllaOperationsErrorView::MandatoryFieldMissing(field, operation) =>
                "Mandatory field missing "@ + field + " for operation "@ + operation.name(),
            ScyllaOperationsErrorView::InvalidOperation(operation, needed, found) =>
                "Invalid Operation: "@ + operation.name() + ". Task should be in "@
                    + needed.name() + " status. Current task status is "@ + found.name() + "."@,
            ScyllaOperationsErrorView::ValidationFailed(reason) => "Validation failed: "@
                + reason,
        }
    }
}

/// Writes a list of statuses as text.
fn write_list(statuses: &Vec<TaskStatus>) -> (text: String)
    ensures
        text@ == list_text(statuses@),
{
    let mut text = String::from_str("[");
    let mut i: usize = 0;
    while i < statuses.len()
        invariant
            i <= statuses.len(),
            text@ == "["@ + joined_names(statuses@.take(i as int)),
        decreases statuses.len() - i,
    {
        let ghost before = statuses@.take(i as int);
        let ghost after = statuses@.take(i + 1);
        assert(after.drop_last() == before);
        if i > 0 {
            text.append(", ");
        }
        let name = statuses[i].to_string();
        text.append(name.as_str());
        i += 1;
    }
    assert(statuses@.take(i as int) == statuses@);
    text.append("]");
    text
}

impl ScyllaOperationsError {
    /// The message that tells a person what went wrong.
    pub fn to_string(&self) -> (text: String)
        ensures
            text@ == self@.message(),
    {
        match self {
            ScyllaOperationsError::InvalidStatusTransition(current, allowed) => {
                let mut text = String::from_str("Invalid status passed. Current task status is ");
                text.append(current.to_string().as_str());
                text.append(". Allowed status transitions are ");
                text.append(write_list(allowed).as_str());
                text
            },
            ScyllaOperationsError::TerminalTaskStatus(current, open) => {
                let mut text = String::from_str("Task is in terminal status: ");
                text.append(current.to_string().as_str());
                text.append(". It should be in one of the non-terminal status ");
                text.append(write_list(open).as_str());
                text.append(".");
                text
            },
            ScyllaOperationsError::MandatoryFieldMissing(field, operation) => {
                let mut text = String::from_str("Mandatory field missing ");
                text.append(field.as_str());
                text.append(" for operation ");
                text.append(operation.to_string().as_str());
                text
            },
            ScyllaOperationsError::InvalidOperation(operation, needed, found) => {
                let mut text = String::from_str("Invalid Operation: ");
                text.append(operation.to_string().as_str());
                text.append(". Task should be in ");
                text.append(needed.to_string().as_str());
                text.append(" status. Current task status is ");
                text.append(found.to_string().as_str());
                text.append(".");
                text
            },
            ScyllaOperationsError::ValidationFailed(reason) => {
                let mut text = String::from_str("Validation failed: ");
                text.append(reason.as_str());
                text
            },
        }
    }
}

} // verus!
