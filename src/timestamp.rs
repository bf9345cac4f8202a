//! Instants in UTC, as upstream services report them.
use vstd::prelude::*;

verus! {

/// An instant: whole seconds since the Unix epoch and the nanoseconds past
/// that second (which exceed 999,999,999 only within a leap second).
#[derive(Clone, Copy, Debug, PartialEq, Eq, Structural)]
pub struct Timestamp {
    pub seconds: i64,
    pub nanos: u32,
}

/// The (seconds, nanoseconds) of the instant that chrono's `FromStr` for
/// `DateTime<Utc>` reads from `text`, converted to UTC; `None` when it rejects `text`.
pub uninterp spec fn utc_instant_of(text: Seq<char>) -> Option<(i64, u32)>;

impl Timestamp {
    /// `self` is strictly later than `other`.
    pub open spec fn is_after(self, other: Timestamp) -> bool {
        self.seconds > other.seconds || (self.seconds == other.seconds && self.nanos > other.nanos)
    }

    /// Whether `self` is strictly later than `other`.
    pub fn after(&self, other: &Timestamp) -> (r: bool)
        ensures
            r == self.is_after(*other),
    {
        self.seconds > other.seconds || (self.seconds == other.seconds && self.nanos > other.nanos)
    }
}

/// Relies on chrono's `FromStr` for `DateTime<Utc>` (relaxed RFC 3339), with
/// `DateTime::timestamp` and `DateTime::timestamp_subsec_nanos` to read the instant.
#[verifier::external_body]
pub(crate) fn parse_utc(text: &str) -> (r: Option<Timestamp>)
    ensures
        match r {
            Some(t) => utc_instant_of(text@) == Some((t.seconds, t.nanos)),
            None => utc_instant_of(text@) is None,
        },
{
    text.parse::<chrono::DateTime<chrono::Utc>>().ok().map(
        |d| Timestamp { seconds: d.timestamp(), nanos: d.timestamp_subsec_nanos() },
    )
}

} // verus!
