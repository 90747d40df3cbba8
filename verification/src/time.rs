//! Plain time values: a millisecond timestamp and a whole-second duration.
//!
//! Timestamps are milliseconds since the Unix epoch; durations are whole
//! seconds, so serialized values never involve fractional arithmetic.

use vstd::prelude::*;

verus! {

/// A duration in whole seconds.
#[derive(Debug, Clone, Copy, PartialEq, Eq, Structural)]
pub struct DurationSecs {
    pub secs: u64,
}

impl DurationSecs {
    /// The number of seconds, as a mathematical integer.
    pub open spec fn spec_secs(self) -> int {
        self.secs as int
    }

    /// The number of milliseconds, as a mathematical integer.
    pub open spec fn spec_millis(self) -> int {
        self.secs as int * 1000
    }

    pub fn from_secs(secs: u64) -> (d: DurationSecs)
        ensures
            d.spec_secs() == secs as int,
    {
        DurationSecs { secs }
    }

    pub fn from_hours(hours: u64) -> (d: DurationSecs)
        requires
            hours * 3600 <= u64::MAX,
        ensures
            d.spec_secs() == hours as int * 3600,
    {
        DurationSecs { secs: hours * 3600 }
    }

    pub fn as_secs(&self) -> (s: u64)
        ensures
            s as int == self.spec_secs(),
    {
        self.secs
    }

    pub fn as_millis(&self) -> (ms: u64)
        requires
            self.spec_millis() <= u64::MAX,
        ensures
            ms as int == self.spec_millis(),
    {
        self.secs * 1000
    }
}

/// A point in time: milliseconds since the Unix epoch.
#[derive(Debug, Clone, Copy, PartialEq, Eq, Structural)]
pub struct Timestamp {
    pub millis: i64,
}

impl Timestamp {
    /// The millisecond value, as a mathematical integer.
    pub open spec fn spec_millis(self) -> int {
        self.millis as int
    }

    pub fn new(ms: i64) -> (t: Timestamp)
        ensures
            t.spec_millis() == ms as int,
    {
        Timestamp { millis: ms }
    }

    pub fn as_millis(&self) -> (ms: i64)
        ensures
            ms as int == self.spec_millis(),
    {
        self.millis
    }

    pub fn as_millis_i64(&self) -> (ms: i64)
        ensures
            ms as int == self.spec_millis(),
    {
        self.millis
    }

    pub fn as_secs(&self) -> (s: i64)
        ensures
            self.spec_millis() >= 0 ==> s as int == self.spec_millis() / 1000,
            self.spec_millis() < 0 ==> s as int == -((-self.spec_millis()) / 1000),
    {
        self.millis / 1000
    }

    /// The instant `d` later than `self`.
    pub fn plus(&self, d: DurationSecs) -> (t: Timestamp)
        requires
            d.spec_millis() <= i64::MAX,
            self.spec_millis() + d.spec_millis() <= i64::MAX,
        ensures
            t.spec_millis() == self.spec_millis() + d.spec_millis(),
    {
        Timestamp { millis: self.millis + d.as_millis() as i64 }
    }

    /// Strictly-later comparison.
    pub fn is_after(&self, other: &Timestamp) -> (r: bool)
        ensures
            r == (self.spec_millis() > other.spec_millis()),
    {
        self.millis > other.millis
    }
}

} // verus!
