//! Points in time, as the task lifecycle needs them.

use vstd::prelude::*;

verus! {

/// Nanoseconds in one second.
pub const NANOS_PER_SECOND: i128 = 1_000_000_000;

/// A point in time on the UTC time line: the signed number of nanoseconds
/// since 1970-01-01T00:00:00Z.
///
/// The count is wide enough that a clock reading plus or minus any `i64`
/// number of seconds is again a `Timestamp`, so deadlines never overflow.
#[derive(Clone, Copy, Debug, PartialEq, Eq, Structural, PartialOrd, Ord, Hash)]
pub struct Timestamp {
    pub nanos: i128,
}

impl View for Timestamp {
    type V = int;

    open spec fn view(&self) -> int {
        self.nanos as int
    }
}

/// The nanosecond count of whole seconds plus a sub-second part.
pub open spec fn parts_to_nanos(secs: int, subsec_nanos: int) -> int {
    secs * 1_000_000_000 + subsec_nanos
}

/// Whether `nanos` can come out of a clock: whole seconds in `i64`, and a
/// sub-second part in `u32`.
pub open spec fn clock_range(nanos: int) -> bool {
    parts_to_nanos(i64::MIN as int, 0) <= nanos <= parts_to_nanos(i64::MAX as int, u32::MAX as int)
}

/// Reads the system clock through `chrono::Utc::now`, and hands out what
/// `DateTime::timestamp` and `DateTime::timestamp_subsec_nanos` say of the
/// reading: whole seconds since the epoch, and the nanoseconds past them.
/// Nothing is claimed of the two numbers. `Utc::now` panics on a machine
/// whose clock stands before 1970.
#[verifier::external_body]
fn utc_now_parts() -> (parts: (i64, u32)) {
    let reading = chrono::Utc::now();
    (reading.timestamp(), reading.timestamp_subsec_nanos())
}

impl Timestamp {
    /// Whether this point in time lies where a clock reading can lie.
    pub open spec fn is_reading(&self) -> bool {
        clock_range(self@)
    }

    /// The point in time `subsec_nanos` nanoseconds after the whole second `secs`.
    pub fn from_parts(secs: i64, subsec_nanos: u32) -> (t: Timestamp)
        ensures
            t@ == parts_to_nanos(secs as int, subsec_nanos as int),
            t.is_reading(),
    {
        let whole: i128 = secs as i128 * NANOS_PER_SECOND;
        Timestamp { nanos: whole + subsec_nanos as i128 }
    }

    /// The current time. Two calls need not agree; all that is known of a
    /// reading is that it lies in the clock's range.
    pub fn now() -> (t: Timestamp)
        ensures
            t.is_reading(),
    {
        let parts = utc_now_parts();
        Timestamp::from_parts(parts.0, parts.1)
    }

    /// This point in time moved by `secs` seconds, forward or (negative) back.
    pub fn plus_seconds(&self, secs: i64) -> (t: Timestamp)
        requires
            self.is_reading(),
        ensures
            t@ == self@ + secs * 1_000_000_000,
    {
        let shift: i128 = secs as i128 * NANOS_PER_SECOND;
        Timestamp { nanos: self.nanos + shift }
    }

    /// This point in time moved back by `secs` seconds (forward, where `secs`
    /// is negative).
    pub fn minus_seconds(&self, secs: i64) -> (t: Timestamp)
        requires
            self.is_reading(),
        ensures
            t@ == self@ - secs * 1_000_000_000,
    {
        let shift: i128 = secs as i128 * NANOS_PER_SECOND;
        Timestamp { nanos: self.nanos - shift }
    }

    /// The whole seconds since the epoch and the nanoseconds past them, the
    /// latter under a second; `None` where the seconds do not fit `i64`.
    pub fn to_parts(&self) -> (parts: Option<(i64, u32)>)
        ensures
            match parts {
                Some((secs, subsec_nanos)) => subsec_nanos < 1_000_000_000 && parts_to_nanos(
                    secs as int,
                    subsec_nanos as int,
                ) == self@,
                None => !(parts_to_nanos(i64::MIN as int, 0) <= self@ < parts_to_nanos(
                    i64::MAX as int + 1,
                    0,
                )),
            },
    {
        let lowest: i128 = -0x8000_0000_0000_0000 * NANOS_PER_SECOND;
        let above: i128 = 0x8000_0000_0000_0000 * NANOS_PER_SECOND;
        if self.nanos < lowest || self.nanos >= above {
            return None;
        }
        // counted from the lowest second, the division rounds the right way
        let from_lowest: i128 = self.nanos - lowest;
        let secs: i128 = from_lowest / NANOS_PER_SECOND - 0x8000_0000_0000_0000;
        let rest: i128 = from_lowest % NANOS_PER_SECOND;
        Some((secs as i64, rest as u32))
    }

    /// Whether this point in time comes strictly before `other`.
    pub fn is_before(&self, other: &Timestamp) -> (b: bool)
        ensures
            b == (self@ < other@),
    {
        self.nanos < other.nanos
    }
}

} // verus!
