//! Local time of a UNIX timestamp, as the bot shows it.

use vstd::prelude::*;
use chrono::{DateTime, FixedOffset, Utc};

verus! {

/// The offset of Moscow time from UTC, in seconds.
pub const MOSCOW_OFFSET: i32 = 60 * 60 * 3;

/// What chrono writes for the instant `timestamp` (seconds since the UNIX epoch)
/// at the fixed offset `offset_secs` east of UTC, `None` where chrono has no such
/// instant or offset.
pub uninterp spec fn spec_zoned_time_text(timestamp: i64, offset_secs: i32) -> Option<Seq<char>>;

/// Calls chrono's `DateTime::<Utc>::from_timestamp(timestamp, 0)` and
/// `FixedOffset::east_opt(offset_secs)`, moves the instant to that offset with
/// `with_timezone` and writes it with `Display` (`2020-09-13 15:26:40 +03:00`).
/// The contract claims that the outcome is a function of the two arguments,
/// and, as `east_opt` shows, that there is none for an offset of a day or more.
/// It does not say which text or for which timestamps there is one.
#[verifier::external_body]
fn zoned_time_text(timestamp: i64, offset_secs: i32) -> (r: Option<String>)
    ensures
        r matches Some(s) ==> spec_zoned_time_text(timestamp, offset_secs) == Some(s@),
        r is None ==> spec_zoned_time_text(timestamp, offset_secs) is None,
        !(-86400 < offset_secs < 86400) ==> r is None,
{
    match (DateTime::<Utc>::from_timestamp(timestamp, 0), FixedOffset::east_opt(offset_secs)) {
        (Some(instant), Some(zone)) => Some(instant.with_timezone(&zone).to_string()),
        _ => None,
    }
}

/// The Moscow local time of `timestamp`, written as chrono writes a date and
/// time with its offset; `None` for a timestamp that chrono cannot represent.
pub fn parse_time(timestamp: i64) -> (r: Option<String>)
    ensures
        r matches Some(s) ==> spec_zoned_time_text(timestamp, MOSCOW_OFFSET) == Some(s@),
        r is None ==> spec_zoned_time_text(timestamp, MOSCOW_OFFSET) is None,
{
    zoned_time_text(timestamp, MOSCOW_OFFSET)
}

} // verus!
