//! Instants as seconds and nanoseconds since the Unix epoch, parsed by chrono.
use crate::error::GitLabError;
use vstd::prelude::*;

verus! {

/// The seconds since the epoch and the nanoseconds past that second (more
/// than a second's worth only within a leap second) that chrono reads from a
/// timestamp, if it reads one.
pub uninterp spec fn utc_instant(s: Seq<char>) -> Option<(i64, u32)>;

/// An instant in UTC.
pub struct Timestamp {
    pub seconds: i64,
    pub nanos: u32,
}

impl Timestamp {
    /// Nanoseconds since the Unix epoch.
    pub open spec fn total_nanos(&self) -> int {
        self.seconds * 1_000_000_000 + self.nanos
    }
}

/// The instant that `s` denotes, when chrono reads one.
pub open spec fn instant_of(s: Seq<char>) -> Option<Timestamp> {
    match utc_instant(s) {
        Some(v) => Some(Timestamp { seconds: v.0, nanos: v.1 }),
        None => None,
    }
}

/// Relies on chrono's `FromStr` for `DateTime<Utc>` (an RFC 3339 timestamp,
/// converted to UTC) and on `DateTime::timestamp` and
/// `DateTime::timestamp_subsec_nanos`, which read the instant back.
#[verifier::external_body]
fn parse_utc(s: &str) -> (r: Result<(i64, u32), chrono::format::ParseError>)
    ensures
        r is Ok <==> utc_instant(s@) is Some,
        r matches Ok(v) ==> utc_instant(s@) == Some(v),
{
    s.parse::<chrono::DateTime<chrono::Utc>>().map(|t| (t.timestamp(), t.timestamp_subsec_nanos()))
}

/// Parses a time-zone-aware timestamp such as `2024-01-10T12:00:00Z`.
pub fn parse_timestamp(s: &str) -> (r: Result<Timestamp, GitLabError>)
    ensures
        instant_of(s@) is None ==> r matches Err(GitLabError::ChronoParseError(_)),
        instant_of(s@) matches Some(t) ==> r matches Ok(v) && v == t,
{
    match parse_utc(s) {
        Ok(v) => Ok(Timestamp { seconds: v.0, nanos: v.1 }),
        Err(e) => Err(GitLabError::ChronoParseError(e)),
    }
}

/// The signed time from `start` to `end`, in nanoseconds.
pub fn nanos_between(start: &Timestamp, end: &Timestamp) -> (r: i128)
    ensures
        r == end.total_nanos() - start.total_nanos(),
        -crate::report::MAX_SPAN <= r <= crate::report::MAX_SPAN,
{
    let a: i128 = end.seconds as i128 * 1_000_000_000 + end.nanos as i128;
    let b: i128 = start.seconds as i128 * 1_000_000_000 + start.nanos as i128;
    a - b
}

} // verus!
