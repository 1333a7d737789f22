use vstd::prelude::*;

verus! {

/// The timestamp (seconds since the Unix epoch, UTC) that an RFC 2822 date
/// string denotes, or `None` when the string is not a valid RFC 2822 date.
/// The full grammar is not written out here; the value is pinned only as a
/// function of the characters alone.
pub uninterp spec fn rfc2822_of(s: Seq<char>) -> Option<i64>;

/// Relies on chrono's `DateTime::parse_from_rfc2822` and `timestamp`: parsing
/// an RFC 2822 date string depends on the characters alone, and the timestamp
/// of the parsed instant is its offset in seconds from the Unix epoch.
#[verifier::external_body]
pub(crate) fn parse_rfc2822(s: &str) -> (r: Option<i64>)
    ensures
        r == rfc2822_of(s@),
{
    match chrono::DateTime::parse_from_rfc2822(s) {
        Ok(date) => Some(date.timestamp()),
        Err(_) => None,
    }
}

/// Relies on chrono's `Utc::now` for the clock reading; nothing is assumed
/// of the value it returns.
#[verifier::external_body]
pub(crate) fn now_timestamp() -> i64 {
    chrono::Utc::now().timestamp()
}

} // verus!
