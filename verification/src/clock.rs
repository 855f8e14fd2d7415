//! Instants of time as plain numbers, and the one place where the system
//! clock is read.

use vstd::prelude::*;

verus! {

/// An instant: whole seconds since the Unix epoch and the nanoseconds past
/// that second. Two instants are ordered by seconds first, then nanoseconds.
#[derive(Clone, Copy, Debug, PartialEq, Eq, Structural)]
pub struct Timestamp {
    pub secs: i64,
    pub nanos: u32,
}

impl Timestamp {
    /// `self` lies strictly before `other`.
    pub open spec fn is_before(self, other: Timestamp) -> bool {
        self.secs < other.secs || (self.secs == other.secs && self.nanos < other.nanos)
    }

    /// Tells whether `self` lies strictly before `other`.
    pub fn before(&self, other: &Timestamp) -> (earlier: bool)
        ensures
            earlier == self.is_before(*other),
    {
        self.secs < other.secs || (self.secs == other.secs && self.nanos < other.nanos)
    }
}

/// Reads the current time with `chrono::Local::now` and returns it as the
/// pair that `DateTime::timestamp` and `DateTime::timestamp_subsec_nanos`
/// give for it. Nothing is claimed of the value: it depends on the clock of
/// the machine, and two readings need not even be ordered. `chrono` gives
/// up with a panic on a machine whose clock is set before the year 1970.
#[verifier::external_body]
pub(crate) fn now() -> Timestamp {
    let current = chrono::Local::now();
    Timestamp { secs: current.timestamp(), nanos: current.timestamp_subsec_nanos() }
}

/// The strict order on instants is irreflexive and transitive, and any two
/// different instants are ordered one way or the other.
pub proof fn lemma_before_is_strict_total_order(a: Timestamp, b: Timestamp, c: Timestamp)
    ensures
        !a.is_before(a),
        a.is_before(b) && b.is_before(c) ==> a.is_before(c),
        a == b || a.is_before(b) || b.is_before(a),
{
}

} // verus!
