//! Instants in UTC, held as whole seconds since the Unix epoch and the
//! nanoseconds past that second.
use vstd::prelude::*;

verus! {

/// An instant in UTC.
#[derive(Clone, Copy, Debug, PartialEq, Eq, Structural)]
pub struct Timestamp {
    pub secs: i64,
    pub nanos: u32,
}

impl Timestamp {
    /// `self` comes strictly before `other`.
    pub open spec fn before(self, other: Timestamp) -> bool {
        self.secs < other.secs || (self.secs == other.secs && self.nanos < other.nanos)
    }

    /// `self` comes before `other` or is the same instant.
    pub open spec fn not_after(self, other: Timestamp) -> bool {
        self.before(other) || self == other
    }
}

/// Relies on chrono::Utc::now, read back through `DateTime::timestamp` and
/// `DateTime::timestamp_subsec_nanos`: the clock is read from the system
/// (it panics before the epoch), so only the range of the parts is known.
#[verifier::external_body]
pub(crate) fn now() -> (r: Timestamp)
    ensures
        r.secs >= 0,
        r.nanos < 1_000_000_000,
{
    let t = chrono::Utc::now();
    Timestamp { secs: t.timestamp(), nanos: t.timestamp_subsec_nanos() }
}

} // verus!
