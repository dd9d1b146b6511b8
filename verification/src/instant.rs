//! Points in time, as the API writes them.

use chrono::DateTime;
use chrono::Utc;
use vstd::prelude::*;

verus! {

/// A point in time on the UTC scale: whole seconds since 1970-01-01T00:00:00Z,
/// not counting leap seconds, and the nanoseconds since that second began.
/// Within a leap second the nanoseconds run on past 999,999,999.
#[derive(Debug, Clone, Copy, PartialEq, Eq, Structural)]
pub struct Timestamp {
    pub seconds: i64,
    pub nanos: u32,
}

/// The point in time that chrono reads out of `text`, where it reads one: the
/// text parsed as a `chrono::DateTime<chrono::Utc>`, which takes RFC 3339 in
/// chrono's relaxed form, then `timestamp` and `timestamp_subsec_nanos` of it.
pub uninterp spec fn rfc3339_instant(text: Seq<char>) -> Option<Timestamp>;

/// `str::parse` into a `chrono::DateTime<chrono::Utc>`, the parser that chrono
/// itself uses for a date in a JSON document. Its answer depends on the text
/// alone and is `rfc3339_instant` of it; the date comes back as the two
/// numbers that chrono's `timestamp` and `timestamp_subsec_nanos` give.
#[verifier::external_body]
pub(crate) fn read_instant(text: &str) -> (read: Option<Timestamp>)
    ensures
        read == rfc3339_instant(text@),
{
    match text.parse::<DateTime<Utc>>() {
        Ok(at) => Some(Timestamp { seconds: at.timestamp(), nanos: at.timestamp_subsec_nanos() }),
        Err(_) => None,
    }
}

} // verus!
