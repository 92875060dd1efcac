//! Instants on the UTC time line, read from RFC 3339 text or from the clock.

use vstd::prelude::*;

verus! {

/// An instant: whole seconds since 1970-01-01T00:00:00Z, not counting leap
/// seconds, and the nanoseconds since that second began.
#[derive(Debug, Clone, Copy, PartialEq, Eq, Structural)]
pub struct Timestamp {
    pub seconds: i64,
    pub nanos: u32,
}

/// What `chrono` reads from a text as an RFC 3339 date and time: the seconds and
/// nanoseconds of the instant, or nothing where the text is not such a date.
pub uninterp spec fn rfc3339_instant(text: Seq<char>) -> Option<(i64, u32)>;

/// The instant that a text denotes as an RFC 3339 date and time.
pub open spec fn instant_of(text: Seq<char>) -> Option<Timestamp> {
    match rfc3339_instant(text) {
        Some((seconds, nanos)) => Some(Timestamp { seconds, nanos }),
        None => None,
    }
}

/// Reads a text with `chrono::DateTime::parse_from_rfc3339` and takes the
/// instant's `timestamp` and `timestamp_subsec_nanos`. The contract only names
/// the outcome: the same text always gives the same instant, or none.
#[verifier::external_body]
pub(crate) fn read_rfc3339(text: &str) -> (r: Option<Timestamp>)
    ensures
        match r {
            Some(t) => rfc3339_instant(text@) == Some((t.seconds, t.nanos)),
            None => rfc3339_instant(text@) is None,
        },
{
    match chrono::DateTime::parse_from_rfc3339(text) {
        Ok(t) => Some(Timestamp { seconds: t.timestamp(), nanos: t.timestamp_subsec_nanos() }),
        Err(_) => None,
    }
}

/// Reads the clock with `chrono::Utc::now`. Nothing is promised of the instant
/// that comes back. `chrono` panics where the machine's clock stands before
/// 1970.
#[verifier::external_body]
pub(crate) fn read_clock() -> (r: Timestamp) {
    let t = chrono::Utc::now();
    Timestamp { seconds: t.timestamp(), nanos: t.timestamp_subsec_nanos() }
}

} // verus!
