//! What a caller from another language hands in: texts and plain numbers,
//! and what they become once checked.

use crate::config::PGConfig;
use crate::json::json_document;
use crate::models::{text_of, AddTaskModel, GetTaskModel, TaskError, TaskStatus};
use crate::validator::{
    invalid_json, status_named, validate_json, validate_pool_size, validate_port, validate_status,
    JSScyllaError,
};
use vstd::prelude::*;

verus! {

/// The settings of a connection and its pool, as the caller writes them.
pub struct JsDbConfig {
    pub pg_host: String,
    pub pg_port: u32,
    pub pg_user: String,
    pub pg_password: String,
    pub pg_database: String,
    pub pg_pool_size: u32,
}

/// A task to add, with its payload as JSON text.
pub struct JsAddTaskModel {
    pub rn: String,
    pub spec: String,
    pub priority: i8,
    pub queue: String,
}

/// A filter over the stored tasks, with the status under its stored name.
pub struct JsGetTasksModel {
    pub worker: Option<String>,
    pub status: Option<String>,
    pub limit: Option<i32>,
    pub queue: Option<String>,
}

/// A failure record, with its arguments as JSON text.
pub struct JsTaskError {
    pub code: String,
    pub args: String,
    pub description: String,
}

/// The status that a filter asks for: none, the status that its text names,
/// or an error where the text names none.
pub open spec fn status_asked(status: Option<Seq<char>>) -> Result<Option<TaskStatus>, Seq<char>> {
    match status {
        None => Ok(None),
        Some(name) => match status_named(name) {
            Some(status) => Ok(Some(status)),
            None => Err("Invalid Task Status"@),
        },
    }
}

/// Checks the caller's settings: the connection's settings and the size of
/// the pool, or what is wrong with the port.
pub fn pg_config_from_js(js_db_config: JsDbConfig) -> (checked: Result<
    (PGConfig, usize),
    JSScyllaError,
>)
    ensures
        js_db_config.pg_port <= u16::MAX ==> checked is Ok && checked->Ok_0.0 == (PGConfig {
            pg_host: js_db_config.pg_host,
            pg_port: js_db_config.pg_port as u16,
            pg_user: js_db_config.pg_user,
            pg_password: js_db_config.pg_password,
            pg_database: js_db_config.pg_database,
        }) && checked->Ok_0.1 == js_db_config.pg_pool_size,
        js_db_config.pg_port > u16::MAX ==> checked is Err && checked->Err_0@
            == "Invalid value for pg_port"@,
{
    let pg_port = match validate_port(js_db_config.pg_port) {
        Ok(port) => port,
        Err(e) => {
            return Err(e);
        },
    };
    let pg_pool_size = match validate_pool_size(js_db_config.pg_pool_size) {
        Ok(size) => size,
        Err(e) => {
            return Err(e);
        },
    };
    Ok(
        (
            PGConfig {
                pg_host: js_db_config.pg_host,
                pg_port,
                pg_user: js_db_config.pg_user,
                pg_password: js_db_config.pg_password,
                pg_database: js_db_config.pg_database,
            },
            pg_pool_size,
        ),
    )
}

/// Checks the caller's filter: the filter with its status read, or what is
/// wrong with the status.
pub fn get_task_model_from_js(js_gtm: JsGetTasksModel) -> (checked: Result<
    GetTaskModel,
    JSScyllaError,
>)
    ensures
        match status_asked(text_of(js_gtm.status)) {
            Ok(status) => checked is Ok && checked->Ok_0 == (GetTaskModel {
                worker: js_gtm.worker,
                status,
                limit: js_gtm.limit,
                queue: js_gtm.queue,
            }),
            Err(reason) => checked is Err && checked->Err_0@ == reason,
        },
{
    let status = match &js_gtm.status {
        None => None,
        Some(name) => match validate_status(name.as_str()) {
            Ok(status) => Some(status),
            Err(e) => {
                return Err(e);
            },
        },
    };
    Ok(GetTaskModel { worker: js_gtm.worker, status, limit: js_gtm.limit, queue: js_gtm.queue })
}

/// Checks the caller's task: the task with its payload read, or what is
/// wrong with the payload.
pub fn add_task_model_from_js(js_atm: JsAddTaskModel) -> (checked: Result<
    AddTaskModel,
    JSScyllaError,
>)
    ensures
        match json_document(js_atm.spec@) {
            Some(spec) => checked is Ok && checked->Ok_0.rn == js_atm.rn && checked->Ok_0.spec
                == spec && checked->Ok_0.priority == js_atm.priority && checked->Ok_0.queue
                == js_atm.queue,
            None => checked is Err && checked->Err_0@ == invalid_json("spec"@),
        },
{
    let spec = match validate_json(js_atm.spec.as_str(), "spec") {
        Ok(spec) => spec,
        Err(e) => {
            return Err(e);
        },
    };
    Ok(AddTaskModel { rn: js_atm.rn, priority: js_atm.priority, spec, queue: js_atm.queue })
}

/// Checks the caller's failure record: the record with its arguments read,
/// or what is wrong with the arguments.
pub fn task_error_from_js(js_error: JsTaskError) -> (checked: Result<TaskError, JSScyllaError>)
    ensures
        match json_document(js_error.args@) {
            Some(args) => checked is Ok && checked->Ok_0 == (TaskError {
                code: js_error.code,
                args,
                description: js_error.description,
            }),
            None => checked is Err && checked->Err_0@ == invalid_json("args"@),
        },
{
    let args = match validate_json(js_error.args.as_str(), "args") {
        Ok(args) => args,
        Err(e) => {
            return Err(e);
        },
    };
    Ok(TaskError { code: js_error.code, args, description: js_error.description })
}

} // verus!
