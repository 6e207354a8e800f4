//! Moments and lengths of time.

use vstd::prelude::*;

verus! {

/// A moment in time: seconds since 1970-01-01T00:00:00Z and nanoseconds into the second.
#[derive(Debug, Clone, Copy, PartialEq, Eq, Structural)]
pub struct Timestamp {
    pub seconds: i64,
    pub nanos: u32,
}

/// A length of time.
#[derive(Debug, Clone, Copy, PartialEq, Eq, Structural)]
pub struct Span {
    pub seconds: u64,
    /// Less than one second.
    pub nanos: u32,
}

impl Span {
    /// The length in nanoseconds.
    pub open spec fn total(self) -> int {
        self.seconds * 1_000_000_000 + self.nanos
    }

    /// Whether the nanoseconds are less than a second.
    pub open spec fn is_valid(self) -> bool {
        self.nanos < 1_000_000_000
    }

    /// A length of whole seconds.
    pub fn from_secs(seconds: u64) -> (r: Self)
        ensures
            r == (Span { seconds, nanos: 0 }),
            r.is_valid(),
    {
        Span { seconds, nanos: 0 }
    }

    /// A length of whole milliseconds.
    pub fn from_millis(millis: u64) -> (r: Self)
        ensures
            r.is_valid(),
            r.total() == millis * 1_000_000,
    {
        Span { seconds: millis / 1000, nanos: (millis % 1000) as u32 * 1_000_000 }
    }

    /// Whether the length is zero.
    pub fn is_zero(&self) -> (r: bool)
        ensures
            r == (self.total() == 0),
    {
        self.seconds == 0 && self.nanos == 0
    }

    /// Whether this length is less than another.
    pub fn less_than(&self, other: &Span) -> (r: bool)
        ensures
            r == (self.total() < other.total()),
    {
        let a: u128 = self.seconds as u128 * 1_000_000_000 + self.nanos as u128;
        let b: u128 = other.seconds as u128 * 1_000_000_000 + other.nanos as u128;
        a < b
    }

    /// This length less another that is not longer.
    pub fn minus(&self, other: &Span) -> (r: Span)
        requires
            self.is_valid(),
            other.is_valid(),
            other.total() <= self.total(),
        ensures
            r.is_valid(),
            r.total() == self.total() - other.total(),
    {
        if self.nanos >= other.nanos {
            Span { seconds: self.seconds - other.seconds, nanos: self.nanos - other.nanos }
        } else {
            Span {
                seconds: self.seconds - other.seconds - 1,
                nanos: self.nanos + 1_000_000_000 - other.nanos,
            }
        }
    }
}

} // verus!
