//! Instants on the UTC time line, as plain integers.

use chrono::{DateTime, Utc};
use vstd::prelude::*;

verus! {

/// Seconds that are taken off a reported token lifetime, so that a token
/// read as valid is still valid when it is used.
pub const EXPIRY_SAFETY_MARGIN_SECS: i64 = 300;

/// An instant: whole seconds since 1970-01-01T00:00:00Z and the
/// nanoseconds past that second.
#[derive(Clone, Copy, Debug, PartialEq, Eq, Structural)]
pub struct Timestamp {
    pub secs: i64,
    pub nanos: u32,
}

/// The instant that a date-and-time text in relaxed RFC 3339 form denotes,
/// or `None` where the text is not of that form.
pub uninterp spec fn timestamp_of_text(text: Seq<char>) -> Option<Timestamp>;

impl Timestamp {
    /// Whether `self` lies strictly after `other`.
    pub open spec fn is_after(self, other: Timestamp) -> bool {
        self.secs > other.secs || (self.secs == other.secs && self.nanos > other.nanos)
    }

    /// The second in which a token obtained at `self` with the reported
    /// `lifetime` stops being used: `lifetime` seconds after `self`, less
    /// the safety margin.
    pub open spec fn expiry_secs(self, lifetime: i64) -> int {
        self.secs + lifetime - EXPIRY_SAFETY_MARGIN_SECS
    }

    /// Strict comparison on the time line.
    pub fn later_than(&self, other: &Timestamp) -> (r: bool)
        ensures
            r == self.is_after(*other),
    {
        self.secs > other.secs || (self.secs == other.secs && self.nanos > other.nanos)
    }

    /// When a token obtained at `self` with the reported `lifetime` in
    /// seconds stops being used: `self + lifetime - 5 min`, with the same
    /// sub-second part.  `None` exactly where that instant does not fit
    /// the representation.
    pub fn expiry_after(&self, lifetime: i64) -> (r: Option<Timestamp>)
        ensures
            r is Some <==> i64::MIN <= self.expiry_secs(lifetime) <= i64::MAX,
            r matches Some(t) ==> t.secs == self.expiry_secs(lifetime) && t.nanos == self.nanos,
    {
        let total: i128 = self.secs as i128 + lifetime as i128 - EXPIRY_SAFETY_MARGIN_SECS as i128;
        if total < i64::MIN as i128 || total > i64::MAX as i128 {
            None
        } else {
            Some(Timestamp { secs: total as i64, nanos: self.nanos })
        }
    }
}

/// Calls `str::parse::<chrono::DateTime<Utc>>` and reads `timestamp` and
/// `timestamp_subsec_nanos` off the result.  Trusted: the outcome is a
/// function of `text` alone.
#[verifier::external_body]
pub(crate) fn parse_timestamp(text: &str) -> (r: Option<Timestamp>)
    ensures
        r == timestamp_of_text(text@),
{
    let parsed = text.parse::<DateTime<Utc>>().ok()?;
    Some(Timestamp { secs: parsed.timestamp(), nanos: parsed.timestamp_subsec_nanos() })
}

} // verus!
