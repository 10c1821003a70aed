//! Instants as Unix seconds: the range `DateTime<Utc>` can hold, the clock,
//! and the RFC 3339 text the stores keep.

use chrono::{DateTime, Utc};
use vstd::prelude::*;

verus! {

/// The earliest representable second: January 1, 262143 BCE, 00:00:00 UTC.
pub const MIN_TIMESTAMP: i64 = -8334601315200;

/// The latest representable second: December 31, 262142 CE, 23:59:59 UTC.
pub const MAX_TIMESTAMP: i64 = 8210266876799;

/// A Unix second that `DateTime<Utc>` can represent.
pub open spec fn timestamp_in_range(secs: int) -> bool {
    MIN_TIMESTAMP <= secs <= MAX_TIMESTAMP
}

/// The second itself when `DateTime<Utc>` can represent it, else `None`.
pub(crate) fn representable_second(secs: i64) -> (r: Option<i64>)
    ensures
        r == (if timestamp_in_range(secs as int) {
            Some(secs)
        } else {
            None
        }),
{
    if secs < MIN_TIMESTAMP || secs > MAX_TIMESTAMP {
        None
    } else {
        Some(secs)
    }
}

/// `Utc::now()`, as its Unix second and the nanoseconds past it: a
/// representable instant at or after the Unix epoch, built from the system
/// clock's whole seconds and sub-second nanoseconds. (It panics when the
/// system clock reads before the epoch.) Which instant it is, is not known.
#[verifier::external_body]
pub(crate) fn now_utc() -> (r: (i64, u32))
    ensures
        timestamp_in_range(r.0 as int),
        0 <= r.0,
        r.1 < 1_000_000_000,
{
    let now = Utc::now();
    (now.timestamp(), now.timestamp_subsec_nanos())
}

/// The instant an RFC 3339 text denotes, as Unix second and nanoseconds
/// in UTC; `None` when the text is not RFC 3339.
pub uninterp spec fn rfc3339_instant(text: Seq<char>) -> Option<(int, int)>;

/// `DateTime::parse_from_rfc3339`, converted to UTC.
#[verifier::external_body]
pub(crate) fn parse_rfc3339(text: &str) -> (r: Option<(i64, u32)>)
    ensures
        match rfc3339_instant(text@) {
            Some((s, n)) => r matches Some((rs, rn)) && rs == s && rn == n,
            None => r is None,
        },
{
    match DateTime::parse_from_rfc3339(text) {
        Ok(d) => Some((d.timestamp(), d.timestamp_subsec_nanos())),
        Err(_) => None,
    }
}

/// The RFC 3339 text of an instant given as Unix second and nanoseconds.
pub uninterp spec fn rfc3339_text(secs: int, nanos: int) -> Seq<char>;

/// The second falls in a year from 0 to 9999, the years RFC 3339 writes
/// with four digits: from 0000-01-01T00:00:00Z up to, not including,
/// 10000-01-01T00:00:00Z.
pub open spec fn four_digit_year(secs: int) -> bool {
    -62167219200 <= secs < 253402300800
}

/// `DateTime::<Utc>::to_rfc3339` of the instant `(secs, nanos)`. For a year
/// from 0 to 9999 parsing the text back gives the same instant; any other
/// year is written with a sign and five or more digits, which the RFC 3339
/// parser refuses.
#[verifier::external_body]
pub(crate) fn format_rfc3339(secs: i64, nanos: u32) -> (r: String)
    requires
        timestamp_in_range(secs as int),
        nanos < 1_000_000_000,
    ensures
        r@ == rfc3339_text(secs as int, nanos as int),
        four_digit_year(secs as int) ==> rfc3339_instant(r@) == Some((secs as int, nanos as int)),
        !four_digit_year(secs as int) ==> rfc3339_instant(r@) is None,
{
    match DateTime::<Utc>::from_timestamp(secs, nanos) {
        Some(d) => d.to_rfc3339(),
        None => String::new(),
    }
}

/// `a` is not later than `b`, both given as (second, nanoseconds).
pub open spec fn instant_le(a: (int, int), b: (int, int)) -> bool {
    a.0 < b.0 || (a.0 == b.0 && a.1 <= b.1)
}

/// The RFC 3339 text of the current instant.
pub fn now_text() -> (r: String)
    ensures
        exists|secs: int, nanos: int|
            timestamp_in_range(secs) && 0 <= nanos < 1_000_000_000 && r@ == rfc3339_text(secs, nanos),
{
    let (secs, nanos) = now_utc();
    format_rfc3339(secs, nanos)
}

/// The RFC 3339 text of an instant (second and nanoseconds), when the
/// second is representable.
pub fn rfc3339_of_instant(secs: i64, nanos: u32) -> (r: Option<String>)
    requires
        nanos < 1_000_000_000,
    ensures
        timestamp_in_range(secs as int) ==> (r matches Some(t) && t@ == rfc3339_text(secs as int, nanos as int)),
        !timestamp_in_range(secs as int) ==> r is None,
{
    if secs < MIN_TIMESTAMP || secs > MAX_TIMESTAMP {
        return None;
    }
    Some(format_rfc3339(secs, nanos))
}

} // verus!
