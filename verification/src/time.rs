//! Wall-clock instants as plain values.
//!
//! The provider reports timezone-aware instants; the logic here only ever
//! reads their position within the day (hour, minute, second), so an instant
//! is carried as its count of seconds since the Unix epoch.

use vstd::prelude::*;

verus! {

/// An instant in time, as whole seconds since the Unix epoch (UTC).
#[derive(Clone, Copy, PartialEq, Eq, Structural, Debug)]
pub struct Timestamp {
    pub unix_seconds: u64,
}

/// Hour of the day (0..24) of an instant, read in UTC.
pub open spec fn hour_spec(t: Timestamp) -> int {
    ((t.unix_seconds as int) / 3600) % 24
}

/// Minute within the hour (0..60) of an instant.
pub open spec fn minute_spec(t: Timestamp) -> int {
    ((t.unix_seconds as int) / 60) % 60
}

/// Second within the minute (0..60) of an instant.
pub open spec fn second_spec(t: Timestamp) -> int {
    (t.unix_seconds as int) % 60
}

impl Timestamp {
    pub fn new(unix_seconds: u64) -> (t: Timestamp)
        ensures
            t.unix_seconds == unix_seconds,
    {
        Timestamp { unix_seconds }
    }

    /// Hour of the day in UTC.
    pub fn hour(&self) -> (h: u64)
        ensures
            h == hour_spec(*self),
            0 <= h < 24,
    {
        self.unix_seconds / 3600 % 24
    }

    /// Minute within the hour.
    pub fn minute(&self) -> (m: u64)
        ensures
            m == minute_spec(*self),
            0 <= m < 60,
    {
        self.unix_seconds / 60 % 60
    }

    /// Second within the minute.
    pub fn second(&self) -> (s: u64)
        ensures
            s == second_spec(*self),
            0 <= s < 60,
    {
        self.unix_seconds % 60
    }
}

} // verus!
