//! Event dates: Moscow time (three hours east of UTC), which the server reads
//! local times in, the conversions between it and UTC, and the text of a date as
//! the new-event form sends it.

use vstd::prelude::*;

use crate::bindings::{
    fixed_offset_east, in_chrono_range, NAIVE_MAX_SECS, NAIVE_MIN_SECS, local_to_utc, naive_parse, naive_parse_from_str,
    utc_to_local,
};

verus! {

/// How many seconds Moscow time lies east of UTC: three hours.
pub const OFFSET_EAST_SECS: i32 = 60 * 60 * 3;

/// The Moscow time of the UTC time `utc`, both in seconds.
pub open spec fn local_of_utc(utc: int) -> int {
    utc + OFFSET_EAST_SECS
}

/// The UTC time of the Moscow time `local`, both in seconds.
pub open spec fn utc_of_local(local: int) -> int {
    local - OFFSET_EAST_SECS
}

/// The format of a date in the new-event form, as an HTML
/// `datetime-local` input sends it.
pub open spec fn event_date_format() -> Seq<char> {
    "%Y-%m-%dT%H:%M"@
}

/// Why the text of a date was refused.
pub enum DateParseError {
    /// The text does not have the form `YYYY-MM-DDTHH:MM`.
    Format(chrono::format::ParseError),
    /// The local time has no UTC time in range.
    InvalidOffset,
}

/// The offset of Moscow time from UTC, in seconds to add to UTC.
pub fn moscow_offset() -> (r: i32)
    ensures
        r == OFFSET_EAST_SECS,
        r == 3 * 60 * 60,
{
    match fixed_offset_east(OFFSET_EAST_SECS) {
        Some(o) => o,
        None => {
            proof {
                assert(false);
            }
            0
        },
    }
}

/// The Moscow wall-clock time of a UTC time, both in seconds since the
/// epoch.
pub fn utc_time_to_naive_moscow(utc: i64) -> (r: i64)
    requires
        in_chrono_range(utc as int),
        in_chrono_range(local_of_utc(utc as int)),
    ensures
        r == local_of_utc(utc as int),
        r == utc + 3 * 60 * 60,
{
    let offset = moscow_offset();
    utc_to_local(utc, offset)
}

/// The Moscow wall-clock time of a UTC time, when both lie in chrono's
/// range; nothing otherwise.
pub fn checked_utc_time_to_naive_moscow(utc: i64) -> (r: Option<i64>)
    ensures
        r == (if in_chrono_range(utc as int) && in_chrono_range(local_of_utc(utc as int)) {
            Some(local_of_utc(utc as int) as i64)
        } else {
            None::<i64>
        }),
        r matches Some(l) ==> l == utc + 3 * 60 * 60,
        r is Some <==> NAIVE_MIN_SECS <= utc && utc + 3 * 60 * 60 <= NAIVE_MAX_SECS,
{
    if NAIVE_MIN_SECS <= utc && utc <= NAIVE_MAX_SECS - OFFSET_EAST_SECS as i64 {
        Some(utc_time_to_naive_moscow(utc))
    } else {
        None
    }
}

/// The UTC time of a Moscow wall-clock time, both in seconds since the
/// epoch.
pub fn naive_moscow_time_to_utc(local: i64) -> (r: i64)
    requires
        in_chrono_range(local as int),
        in_chrono_range(utc_of_local(local as int)),
    ensures
        r == utc_of_local(local as int),
        r == local - 3 * 60 * 60,
{
    let offset = moscow_offset();
    match local_to_utc(local, offset) {
        Some(t) => t,
        None => {
            proof {
                assert(false);
            }
            0
        },
    }
}

/// Reads the date of the new-event form: Moscow wall-clock time in the form
/// `YYYY-MM-DDTHH:MM`, given back as UTC seconds since the epoch.
pub fn parse_event_date(s: &str) -> (r: Result<i64, DateParseError>)
    ensures
        match naive_parse(s@, event_date_format()) {
            None => r matches Err(DateParseError::Format(_)),
            Some(local) => if in_chrono_range(utc_of_local(local as int)) {
                r == Ok::<i64, DateParseError>(utc_of_local(local as int) as i64)
            } else {
                r matches Err(DateParseError::InvalidOffset)
            },
        },
        match naive_parse(s@, "%Y-%m-%dT%H:%M"@) {
            None => r is Err,
            Some(local) => match r {
                Ok(utc) => utc == local - 3 * 60 * 60,
                Err(e) => e is InvalidOffset && !(NAIVE_MIN_SECS <= local - 3 * 60 * 60),
            },
        },
{
    let local = match naive_parse_from_str(s, "%Y-%m-%dT%H:%M") {
        Ok(t) => t,
        Err(e) => {
            return Err(DateParseError::Format(e));
        },
    };
    let offset = moscow_offset();
    match local_to_utc(local, offset) {
        Some(t) => Ok(t),
        None => Err(DateParseError::InvalidOffset),
    }
}

/// Moscow time is UTC shifted by one fixed offset of three hours, the same
/// for every date: a second later in UTC is a second later in Moscow, and
/// the reverse conversion subtracts the same three hours.
pub proof fn law_offset_is_fixed(t: int, l: int)
    ensures
        local_of_utc(t) == t + 3 * 60 * 60,
        utc_of_local(l) == l - 3 * 60 * 60,
        local_of_utc(t + 1) == local_of_utc(t) + 1,
        utc_of_local(l + 1) == utc_of_local(l) + 1,
        local_of_utc(0) == 10_800,
        utc_of_local(10_800) == 0,
{
}

/// The form's date is read with the pattern year-month-day, a `T`, then
/// hour and minute: `%Y-%m-%dT%H:%M`, with no other characters.
pub proof fn law_event_date_format()
    ensures
        event_date_format() =~= seq!['%', 'Y', '-', '%', 'm', '-', '%', 'd', 'T', '%', 'H', ':', '%', 'M'],
        event_date_format() == "%Y-%m-%dT%H:%M"@,
{
    reveal_strlit("%Y-%m-%dT%H:%M");
}

/// Reading a UTC time as Moscow time and back gives the same time, and the
/// other way round.
pub proof fn law_local_time_round_trip(t: int)
    ensures
        utc_of_local(local_of_utc(t)) == t,
        local_of_utc(utc_of_local(t)) == t,
{
}

} // verus!
