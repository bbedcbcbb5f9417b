//! What the persistence engine does when a transaction fails.
//!
//! A transaction that lost a race against another one is run again, after a
//! pause that grows with the number of attempts and is never twice the same;
//! any other fault, and the last attempt's, goes to the caller. The engine
//! runs the transaction and sleeps; what it does next is decided here.

use crate::pg_error::PgAdapterError;
use vstd::prelude::*;

verus! {

/// The number of the first attempt.
pub const FIRST_TRY: u64 = 1;

/// The number of attempts after which the engine gives up.
pub const MAX_TRIES: u64 = 10;

/// The part of every pause that does not depend on chance, in milliseconds.
pub const CONST_DELAY: u64 = 10;

/// What the engine does after a failed attempt.
pub enum NextStep {
    /// Sleep for `delay_millis` milliseconds, then run the transaction again,
    /// as attempt number `attempt`.
    Retry { attempt: u64, delay_millis: u64 },
    /// Hand the error to the caller.
    GiveUp(PgAdapterError),
}

/// The least random part of the pause after attempt number `attempt`.
pub open spec fn jitter_floor(attempt: int) -> int {
    (attempt - 1) * 10 * (attempt - 1)
}

/// The bound that the random part of the pause after attempt number
/// `attempt` stays under.
pub open spec fn jitter_ceiling(attempt: int) -> int {
    attempt * 10 * attempt
}

/// What follows attempt number `attempt`, which failed on `fault`: where
/// the fault is a conflict with another transaction and attempts are left,
/// another attempt after the constant pause and `jitter`; else the end.
pub open spec fn decision(
    attempt: u64,
    conflict: bool,
    jitter: u64,
    fault: tokio_postgres::Error,
) -> NextStep {
    if conflict && attempt < MAX_TRIES {
        NextStep::Retry {
            attempt: (attempt + 1) as u64,
            delay_millis: (CONST_DELAY + jitter) as u64,
        }
    } else {
        NextStep::GiveUp(PgAdapterError::DbError(fault))
    }
}

/// Whether the fault says that the transaction lost a race against another
/// one: whether `tokio_postgres::Error::code` gives PostgreSQL's
/// `serialization_failure` for it. A fault keeps its code, so the answer
/// for a fault is always the same.
pub uninterp spec fn fault_is_conflict(fault: tokio_postgres::Error) -> bool;

/// Whether the fault is PostgreSQL's `serialization_failure`: compares what
/// `tokio_postgres::Error::code` gives with
/// `SqlState::T_R_SERIALIZATION_FAILURE`. The answer is what
/// [`fault_is_conflict`] names.
#[verifier::external_body]
fn is_serialization_failure(fault: &tokio_postgres::Error) -> (conflict: bool)
    ensures
        conflict == fault_is_conflict(*fault),
{
    fault.code() == Some(&tokio_postgres::error::SqlState::T_R_SERIALIZATION_FAILURE)
}

/// A number drawn by `rand::random_range` from `low..high`. The range must
/// hold a number, or the draw panics; the number drawn lies in it.
#[verifier::external_body]
fn random_in(low: u64, high: u64) -> (drawn: u64)
    requires
        low < high,
    ensures
        low <= drawn < high,
{
    rand::random_range(low..high)
}

/// The range that the random part of a pause is drawn from.
pub fn jitter_range(attempt: u64) -> (range: (u64, u64))
    requires
        FIRST_TRY <= attempt <= MAX_TRIES,
    ensures
        range.0 == jitter_floor(attempt as int),
        range.1 == jitter_ceiling(attempt as int),
        range.0 < range.1 <= 1000,
{
    let before: u64 = attempt - 1;
    assert(before * 10 * before <= 810 && before * 10 * before < attempt * 10 * attempt
        && attempt * 10 * attempt <= 1000) by (nonlinear_arith)
        requires
            before + 1 == attempt,
            1 <= attempt <= 10,
    ;
    (before * 10 * before, attempt * 10 * attempt)
}

/// Decides what follows a failed attempt, given whether the fault is a
/// conflict and the random part of the pause.
pub fn decide(attempt: u64, conflict: bool, jitter: u64, fault: tokio_postgres::Error) -> (step:
    NextStep)
    requires
        FIRST_TRY <= attempt <= MAX_TRIES,
        jitter <= u64::MAX - CONST_DELAY,
    ensures
        step == decision(attempt, conflict, jitter, fault),
{
    if conflict && attempt < MAX_TRIES {
        NextStep::Retry { attempt: attempt + 1, delay_millis: CONST_DELAY + jitter }
    } else {
        NextStep::GiveUp(PgAdapterError::DbError(fault))
    }
}

/// The pause after attempt number `attempt`, in milliseconds: the constant
/// part, and a part drawn at random from a range that grows with the
/// number of attempts. Two calls need not agree.
pub fn pause_millis(attempt: u64) -> (millis: u64)
    requires
        FIRST_TRY <= attempt <= MAX_TRIES,
    ensures
        CONST_DELAY + jitter_floor(attempt as int) <= millis < CONST_DELAY + jitter_ceiling(
            attempt as int,
        ),
{
    let range = jitter_range(attempt);
    CONST_DELAY + random_in(range.0, range.1)
}

/// Decides what follows attempt number `attempt`, which failed on `fault`.
///
/// The transaction is run again exactly where the fault is a conflict with
/// another transaction and attempts are left; any other fault, and the last
/// attempt's, goes to the caller as it came. The pause before another
/// attempt is in part drawn at random, so two calls need not agree on it:
/// whatever is drawn, the pause after attempt `n` lies between
/// `10 + 10 (n - 1)^2` and `10 + 10 n^2` milliseconds.
pub fn after_failure(attempt: u64, fault: tokio_postgres::Error) -> (step: NextStep)
    requires
        FIRST_TRY <= attempt <= MAX_TRIES,
    ensures
        exists|jitter: u64|
            jitter_floor(attempt as int) <= jitter < jitter_ceiling(attempt as int) && step
                == #[trigger] decision(attempt, fault_is_conflict(fault), jitter, fault),
        step is Retry <==> fault_is_conflict(fault) && attempt < MAX_TRIES,
        attempt == MAX_TRIES ==> step == NextStep::GiveUp(PgAdapterError::DbError(fault)),
        step matches NextStep::Retry { attempt: next, delay_millis } ==> {
            &&& next == attempt + 1
            &&& next <= MAX_TRIES
            &&& CONST_DELAY + jitter_floor(attempt as int) <= delay_millis < CONST_DELAY
                + jitter_ceiling(attempt as int)
        },
        step matches NextStep::GiveUp(e) ==> e == PgAdapterError::DbError(fault),
{
    let conflict = is_serialization_failure(&fault);
    let jitter = if conflict && attempt < MAX_TRIES {
        pause_millis(attempt) - CONST_DELAY
    } else {
        jitter_range(attempt).0
    };
    decide(attempt, conflict, jitter, fault)
}

/// Pauses grow: whatever is drawn, the pause after a later attempt is at
/// least as long as any pause after an earlier one can be.
pub proof fn pauses_grow(earlier: int, later: int)
    requires
        1 <= earlier < later,
    ensures
        jitter_ceiling(earlier) <= jitter_floor(later),
        jitter_floor(earlier) < jitter_ceiling(earlier),
{
    assert(earlier * 10 * earlier <= (later - 1) * 10 * (later - 1)) by (nonlinear_arith)
        requires
            1 <= earlier <= later - 1,
    ;
    assert((earlier - 1) * 10 * (earlier - 1) < earlier * 10 * earlier) by (nonlinear_arith)
        requires
            1 <= earlier,
    ;
}

} // verus!
