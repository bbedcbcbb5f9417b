//! Errors of the PostgreSQL persistence engine.

use crate::error::{ScyllaOperationsError, ScyllaOperationsErrorView};
use vstd::prelude::*;
use vstd::std_specs::convert::FromSpecImpl;
use vstd::string::StringExecFns;

verus! {

/// `tokio_postgres::Error`: what a statement, a transaction or the
/// connection under it failed on.
#[verifier::external_type_specification]
#[verifier::external_body]
pub struct ExDbError(tokio_postgres::Error);

/// `deadpool::managed::BuildError`: why no connection pool could be built.
#[verifier::external_type_specification]
#[verifier::external_body]
pub struct ExBuildError(deadpool::managed::BuildError);

/// `deadpool::managed::PoolError`: why the pool handed out no connection.
#[verifier::external_type_specification]
#[verifier::external_body]
#[verifier::reject_recursive_types(E)]
pub struct ExPoolError<E>(deadpool::managed::PoolError<E>);

/// What the persistence engine fails with: a request that the state machine
/// refused, a fault of the store or of the way to it, or a task that is
/// there when it must not be, or not there when it must.
#[derive(Debug)]
pub enum PgAdapterError {
    ScyllaOpsError(ScyllaOperationsError),
    PoolCreationError(deadpool_postgres::BuildError),
    PoolError(deadpool_postgres::PoolError),
    DbError(tokio_postgres::Error),
    /// A task of this name is stored already.
    DuplicateTask(String),
    /// No task of this name is stored.
    NoTaskFound(String),
}

/// The mathematical value of a [`PgAdapterError`]. The faults of store and
/// pool are carried as they came.
pub enum PgAdapterErrorView {
    ScyllaOpsError(ScyllaOperationsErrorView),
    PoolCreationError(deadpool_postgres::BuildError),
    PoolError(deadpool_postgres::PoolError),
    DbError(tokio_postgres::Error),
    DuplicateTask(Seq<char>),
    NoTaskFound(Seq<char>),
}

impl View for PgAdapterError {
    type V = PgAdapterErrorView;

    open spec fn view(&self) -> PgAdapterErrorView {
        match self {
            PgAdapterError::ScyllaOpsError(refusal) => PgAdapterErrorView::ScyllaOpsError(
                refusal@,
            ),
            PgAdapterError::PoolCreationError(fault) => PgAdapterErrorView::PoolCreationError(
                *fault,
            ),
            PgAdapterError::PoolError(fault) => PgAdapterErrorView::PoolError(*fault),
            PgAdapterError::DbError(fault) => PgAdapterErrorView::DbError(*fault),
            PgAdapterError::DuplicateTask(rn) => PgAdapterErrorView::DuplicateTask(rn@),
            PgAdapterError::NoTaskFound(rn) => PgAdapterErrorView::NoTaskFound(rn@),
        }
    }
}

impl From<ScyllaOperationsError> for PgAdapterError {
    fn from(scylla_op_error: ScyllaOperationsError) -> (e: Self) {
        PgAdapterError::ScyllaOpsError(scylla_op_error)
    }
}

impl FromSpecImpl<ScyllaOperationsError> for PgAdapterError {
    open spec fn obeys_from_spec() -> bool {
        true
    }

    open spec fn from_spec(scylla_op_error: ScyllaOperationsError) -> Self {
        PgAdapterError::ScyllaOpsError(scylla_op_error)
    }
}

impl From<deadpool_postgres::PoolError> for PgAdapterError {
    fn from(pool_error: deadpool_postgres::PoolError) -> (e: Self) {
        PgAdapterError::PoolError(pool_error)
    }
}

impl FromSpecImpl<deadpool_postgres::PoolError> for PgAdapterError {
    open spec fn obeys_from_spec() -> bool {
        true
    }

    open spec fn from_spec(pool_error: deadpool_postgres::PoolError) -> Self {
        PgAdapterError::PoolError(pool_error)
    }
}

impl From<tokio_postgres::Error> for PgAdapterError {
    fn from(pg_error: tokio_postgres::Error) -> (e: Self) {
        PgAdapterError::DbError(pg_error)
    }
}

impl FromSpecImpl<tokio_postgres::Error> for PgAdapterError {
    open spec fn obeys_from_spec() -> bool {
        true
    }

    open spec fn from_spec(pg_error: tokio_postgres::Error) -> Self {
        PgAdapterError::DbError(pg_error)
    }
}

impl From<deadpool_postgres::BuildError> for PgAdapterError {
    fn from(build_error: deadpool_postgres::BuildError) -> (e: Self) {
        PgAdapterError::PoolCreationError(build_error)
    }
}

impl FromSpecImpl<deadpool_postgres::BuildError> for PgAdapterError {
    open spec fn obeys_from_spec() -> bool {
        true
    }

    open spec fn from_spec(build_error: deadpool_postgres::BuildError) -> Self {
        PgAdapterError::PoolCreationError(build_error)
    }
}

/// The text that `tokio_postgres::Error` shows through `Display`. Nothing is
/// claimed of the text.
#[verifier::external_body]
fn db_error_text(fault: &tokio_postgres::Error) -> (text: String) {
    format!("{fault}")
}

/// The text that `deadpool::managed::PoolError` shows through `Display`.
/// Nothing is claimed of the text.
#[verifier::external_body]
fn pool_error_text(fault: &deadpool_postgres::PoolError) -> (text: String) {
    format!("{fault}")
}

/// The text that `deadpool::managed::BuildError` shows through `Display`.
/// Nothing is claimed of the text.
#[verifier::external_body]
fn build_error_text(fault: &deadpool_postgres::BuildError) -> (text: String) {
    format!("{fault}")
}

impl PgAdapterErrorView {
    /// Whether the error is one of this library's own making, with a message
    /// that this library words.
    pub open spec fn is_worded_here(self) -> bool {
        self is ScyllaOpsError || self is DuplicateTask || self is NoTaskFound
    }

    /// The message of an error of this library's own making.
    pub open spec fn message(self) -> Seq<char>
        recommends
            self.is_worded_here(),
    {
        match self {
            PgAdapterErrorView::ScyllaOpsError(refusal) => refusal.message(),
            PgAdapterErrorView::DuplicateTask(rn) => "Task already exist for "@ + rn,
            PgAdapterErrorView::NoTaskFound(rn) => "No task found for "@ + rn,
            _ => Seq::<char>::empty(),
        }
    }
}

impl PgAdapterError {
    /// The message that tells a person what went wrong. A fault of store or
    /// pool speaks for itself.
    pub fn to_string(&self) -> (text: String)
        ensures
            self@.is_worded_here() ==> text@ == self@.message(),
    {
        match self {
            PgAdapterError::DbError(fault) => db_error_text(fault),
            PgAdapterError::DuplicateTask(rn) => {
                let mut text = String::from_str("Task already exist for ");
                text.append(rn.as_str());
                text
            },
            PgAdapterError::NoTaskFound(rn) => {
                let mut text = String::from_str("No task found for ");
                text.append(rn.as_str());
                text
            },
            PgAdapterError::PoolCreationError(fault) => build_error_text(fault),
            PgAdapterError::PoolError(fault) => pool_error_text(fault),
            PgAdapterError::ScyllaOpsError(refusal) => refusal.to_string(),
        }
    }
}

} // verus!
