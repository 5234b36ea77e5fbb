//! A point in time as plain integers, ordered chronologically.

use vstd::prelude::*;

verus! {

/// An instant given as whole seconds since the Unix epoch plus the
/// nanoseconds past that second.
///
/// `nanos` may reach past one billion where a clock reports a leap second;
/// the order below stays the chronological one.
#[derive(Clone, Copy, Debug, PartialEq, Eq, Structural)]
pub struct Timestamp {
    pub secs: i64,
    pub nanos: u32,
}

impl Timestamp {
    /// `self` comes strictly before `other`.
    pub open spec fn spec_before(self, other: Timestamp) -> bool {
        self.secs < other.secs || (self.secs == other.secs && self.nanos < other.nanos)
    }

    pub fn new(secs: i64, nanos: u32) -> (r: Timestamp)
        ensures
            r.secs == secs,
            r.nanos == nanos,
    {
        Timestamp { secs, nanos }
    }

    pub fn before(&self, other: &Timestamp) -> (r: bool)
        ensures
            r == self.spec_before(*other),
    {
        self.secs < other.secs || (self.secs == other.secs && self.nanos < other.nanos)
    }
}

} // verus!
