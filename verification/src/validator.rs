//! Checks on what a caller from another language hands in as text and
//! plain numbers, before it becomes a value of this library.

use crate::json::{json_document, read_json};
use crate::models::TaskStatus;
use vstd::prelude::*;
use vstd::string::StringExecFns;

verus! {

/// An argument that does not say what it has to.
#[derive(Debug)]
pub enum JSScyllaError {
    /// What is wrong, and with which argument.
    ArgumentValidationError(String),
}

impl View for JSScyllaError {
    type V = Seq<char>;

    /// What is wrong with the argument.
    open spec fn view(&self) -> Seq<char> {
        match self {
            JSScyllaError::ArgumentValidationError(reason) => reason@,
        }
    }
}

impl JSScyllaError {
    /// The message that tells a person what went wrong.
    pub fn to_string(&self) -> (text: String)
        ensures
            text@ == "Validation failed for fields: "@ + self@,
    {
        match self {
            JSScyllaError::ArgumentValidationError(reason) => {
                let mut text = String::from_str("Validation failed for fields: ");
                text.append(reason.as_str());
                text
            },
        }
    }
}

/// The status that a stored name stands for.
pub open spec fn status_named(name: Seq<char>) -> Option<TaskStatus> {
    if name == "running"@ {
        Some(TaskStatus::Running)
    } else if name == "ready"@ {
        Some(TaskStatus::Ready)
    } else if name == "completed"@ {
        Some(TaskStatus::Completed)
    } else if name == "cancelled"@ {
        Some(TaskStatus::Cancelled)
    } else if name == "aborted"@ {
        Some(TaskStatus::Aborted)
    } else {
        None
    }
}

/// The value of a checked argument: what it is, or what is wrong with it.
pub open spec fn checked_of<A>(r: Result<A, JSScyllaError>) -> Result<A, Seq<char>> {
    match r {
        Ok(value) => Ok(value),
        Err(e) => Err(e@),
    }
}

/// Whether two texts are the same.
fn same_text(left: &str, right: &str) -> (same: bool)
    ensures
        same == (left@ == right@),
{
    String::from_str(left) == String::from_str(right)
}

/// Reads a status from its stored name.
pub fn validate_status(status: &str) -> (checked: Result<TaskStatus, JSScyllaError>)
    ensures
        checked_of(checked) == match status_named(status@) {
            Some(status) => Ok::<TaskStatus, Seq<char>>(status),
            None => Err("Invalid Task Status"@),
        },
{
    if same_text(status, "running") {
        Ok(TaskStatus::Running)
    } else if same_text(status, "ready") {
        Ok(TaskStatus::Ready)
    } else if same_text(status, "completed") {
        Ok(TaskStatus::Completed)
    } else if same_text(status, "cancelled") {
        Ok(TaskStatus::Cancelled)
    } else if same_text(status, "aborted") {
        Ok(TaskStatus::Aborted)
    } else {
        Err(JSScyllaError::ArgumentValidationError(String::from_str("Invalid Task Status")))
    }
}

/// Every status is read back from its stored name.
pub proof fn stored_name_names_its_status(status: TaskStatus)
    ensures
        status_named(status.stored_name()) == Some(status),
{
    reveal_strlit("running");
    reveal_strlit("ready");
    reveal_strlit("completed");
    reveal_strlit("cancelled");
    reveal_strlit("aborted");
    assert("running"@.len() == 7 && "ready"@.len() == 5 && "completed"@.len() == 9
        && "cancelled"@.len() == 9 && "aborted"@.len() == 7);
    assert("running"@[0] == 'r' && "aborted"@[0] == 'a');
    assert("completed"@[1] == 'o' && "cancelled"@[1] == 'a');
}

/// What is wrong with a text that holds no JSON document: the argument
/// `field` is named.
pub open spec fn invalid_json(field: Seq<char>) -> Seq<char> {
    "Invalid JSON for "@ + field
}

/// What the reading of the argument `field` as JSON came to: the document,
/// or the refusal that names the argument.
pub fn json_or_refusal(parsed: Result<serde_json::Value, serde_json::Error>, field: &str) -> (checked:
    Result<serde_json::Value, JSScyllaError>)
    ensures
        checked_of(checked) == match parsed {
            Ok(doc) => Ok::<serde_json::Value, Seq<char>>(doc),
            Err(_) => Err(invalid_json(field@)),
        },
{
    match parsed {
        Ok(doc) => Ok(doc),
        Err(_) => {
            let mut reason = String::from_str("Invalid JSON for ");
            reason.append(field);
            Err(JSScyllaError::ArgumentValidationError(reason))
        },
    }
}

/// Reads the argument `field`, whose text is `spec`, as a JSON document.
pub fn validate_json(spec: &str, field: &str) -> (checked: Result<
    serde_json::Value,
    JSScyllaError,
>)
    ensures
        checked_of(checked) == match json_document(spec@) {
            Some(doc) => Ok::<serde_json::Value, Seq<char>>(doc),
            None => Err(invalid_json(field@)),
        },
{
    json_or_refusal(read_json(spec), field)
}

/// Reads a port: a number that sixteen bits hold.
pub fn validate_port(port: u32) -> (checked: Result<u16, JSScyllaError>)
    ensures
        checked_of(checked) == if port <= u16::MAX {
            Ok::<u16, Seq<char>>(port as u16)
        } else {
            Err("Invalid value for pg_port"@)
        },
{
    if port <= 65535 {
        Ok(port as u16)
    } else {
        Err(JSScyllaError::ArgumentValidationError(String::from_str("Invalid value for pg_port")))
    }
}

/// Reads a pool size: a number that the machine's word holds.
pub fn validate_pool_size(pool_size: u32) -> (checked: Result<usize, JSScyllaError>)
    ensures
        checked_of(checked) == if pool_size <= usize::MAX {
            Ok::<usize, Seq<char>>(pool_size as usize)
        } else {
            Err("Invalid value for pg_pool_size"@)
        },
{
    if pool_size as u64 <= usize::MAX as u64 {
        Ok(pool_size as usize)
    } else {
        Err(
            JSScyllaError::ArgumentValidationError(
                String::from_str("Invalid value for pg_pool_size"),
            ),
        )
    }
}

} // verus!
