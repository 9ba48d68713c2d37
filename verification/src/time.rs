//! Instants of Coordinated Universal Time, as a count of seconds and a count
//! of nanoseconds within the second.

use vstd::prelude::*;

verus! {

/// An instant of Coordinated Universal Time: whole seconds since the start
/// of 1970, and nanoseconds since that second began. The nanoseconds may
/// reach into a second billion, which is how a leap second is written.
#[derive(Clone, Copy, Debug, PartialEq, Eq, Structural)]
pub struct Timestamp {
    pub seconds: i64,
    pub nanoseconds: u32,
}

impl Timestamp {
    /// `self` is earlier than `other`: the seconds decide, and the
    /// nanoseconds where the seconds are equal.
    pub open spec fn precedes(self, other: Timestamp) -> bool {
        self.seconds < other.seconds || (self.seconds == other.seconds && self.nanoseconds
            < other.nanoseconds)
    }

    /// `self` is `other` or later.
    pub open spec fn reached(self, other: Timestamp) -> bool {
        !self.precedes(other)
    }

    pub fn new(seconds: i64, nanoseconds: u32) -> (t: Timestamp)
        ensures
            t.seconds == seconds,
            t.nanoseconds == nanoseconds,
    {
        Timestamp { seconds, nanoseconds }
    }

    /// Whether `self` is earlier than `other`.
    pub fn is_before(&self, other: &Timestamp) -> (r: bool)
        ensures
            r == self.precedes(*other),
    {
        self.seconds < other.seconds || (self.seconds == other.seconds && self.nanoseconds
            < other.nanoseconds)
    }

    /// Whether `self` is `other` or later.
    pub fn has_reached(&self, other: &Timestamp) -> (r: bool)
        ensures
            r == self.reached(*other),
    {
        !self.is_before(other)
    }
}

/// Of two different instants exactly one is the earlier, and no instant is
/// earlier than itself.
pub proof fn lemma_precedes_is_total(a: Timestamp, b: Timestamp)
    ensures
        !a.precedes(a),
        a != b ==> (a.precedes(b) <==> !b.precedes(a)),
        a == b ==> !a.precedes(b) && !b.precedes(a),
{
}

/// What is earlier than an earlier instant is earlier than the later one.
pub proof fn lemma_precedes_is_transitive(a: Timestamp, b: Timestamp, c: Timestamp)
    requires
        a.precedes(b),
        b.precedes(c),
    ensures
        a.precedes(c),
{
}

} // verus!
