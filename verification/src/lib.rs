//! A durable, multi-worker task queue: the task model, the lifecycle state
//! machine, and the decisions of the PostgreSQL persistence engine.

pub mod adapter_utils;
pub mod config;
pub mod error;
pub mod js_models;
pub mod json;
pub mod lifecycle;
pub mod manager;
pub mod models;
pub mod monitor;
pub mod number;
pub mod pg_error;
pub mod retry;
pub mod task;
pub mod time;
pub mod update_task;
pub mod validator;
