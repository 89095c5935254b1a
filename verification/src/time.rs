//! Timestamps at the library boundary. Header dates are parsed by an
//! outside date library and carried as plain Unix epoch seconds; the
//! decode-time clock is read by the driver and handed in as a plain
//! value, so every fallback decision is verified for any clock reading.

use vstd::prelude::*;
use chrono::TimeZone;

verus! {

/// The epoch seconds of an RFC 2822 date string, if it parses; a function
/// of the string alone.
pub uninterp spec fn rfc2822_epoch(s: Seq<char>) -> Option<i64>;

/// Relies on chrono's `DateTime::parse_from_rfc2822`: whether the string
/// parses, and the instant it names, depend on the string alone.
#[verifier::external_body]
pub(crate) fn parse_rfc2822_epoch(s: &str) -> (r: Option<i64>)
    ensures
        r == rfc2822_epoch(s@),
{
    match chrono::DateTime::parse_from_rfc2822(s) {
        Ok(dt) => Some(dt.with_timezone(&chrono::Utc).timestamp()),
        Err(_) => None,
    }
}

/// The epoch seconds of a civil UTC date-time, if the fields form a valid
/// calendar instant; a function of the fields alone.
pub uninterp spec fn civil_epoch(
    year: u16,
    month: u8,
    day: u8,
    hour: u8,
    minute: u8,
    second: u8,
) -> Option<i64>;

/// Relies on chrono's `Utc.with_ymd_and_hms(..).single()`: it yields an
/// instant exactly when the fields form a valid UTC date-time, and the
/// instant depends on the fields alone.
#[verifier::external_body]
pub(crate) fn utc_epoch(year: u16, month: u8, day: u8, hour: u8, minute: u8, second: u8) -> (r: Option<
    i64,
>)
    ensures
        r == civil_epoch(year, month, day, hour, minute, second),
{
    chrono::Utc.with_ymd_and_hms(
        year as i32,
        month as u32,
        day as u32,
        hour as u32,
        minute as u32,
        second as u32,
    ).single().map(|dt| dt.timestamp())
}

} // verus!
