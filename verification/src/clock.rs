//! The current time, as text.

use chrono::{SecondsFormat, Utc};
use vstd::prelude::*;

verus! {

/// Whether `c` is a decimal digit.
pub open spec fn is_digit(c: char) -> bool {
    '0' <= c <= '9'
}

/// Whether `text` ends in a date and a time of day with whole seconds, as in
/// `-01-26T18:30:09`. The year stands before it.
pub open spec fn ends_in_date_time(text: Seq<char>) -> bool {
    let n = text.len() as int;
    &&& n >= 19
    &&& text[n - 15] == '-' && is_digit(text[n - 14]) && is_digit(text[n - 13])
    &&& text[n - 12] == '-' && is_digit(text[n - 11]) && is_digit(text[n - 10])
    &&& text[n - 9] == 'T' && is_digit(text[n - 8]) && is_digit(text[n - 7])
    &&& text[n - 6] == ':' && is_digit(text[n - 5]) && is_digit(text[n - 4])
    &&& text[n - 3] == ':' && is_digit(text[n - 2]) && is_digit(text[n - 1])
}

/// Whether `text` is a point in time in UTC, in the form of RFC 3339 and with
/// whole seconds. The zone is written as `Z` where `use_z` holds and as
/// `+00:00` otherwise.
pub open spec fn is_utc_timestamp(text: Seq<char>, use_z: bool) -> bool {
    exists|date_time: Seq<char>| #[trigger]
        ends_in_date_time(date_time) && text == date_time + (if use_z {
            seq!['Z']
        } else {
            seq!['+', '0', '0', ':', '0', '0']
        })
}

/// Calls `Utc::now` and `DateTime::to_rfc3339_opts` of the `chrono` crate. The
/// text is some point in time in UTC with whole seconds; which one depends on
/// the clock of the machine, and nothing more is said of it. `Utc::now` panics
/// where that clock is set before 1970.
#[verifier::external_body]
pub(crate) fn utc_now(use_z: bool) -> (text: String)
    ensures
        is_utc_timestamp(text@, use_z),
{
    Utc::now().to_rfc3339_opts(SecondsFormat::Secs, use_z)
}

} // verus!
