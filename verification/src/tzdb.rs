//! The boundary to `chrono` and `chrono-tz`.
//!
//! Nothing in this file is proved. Each function below makes one call into the
//! date library or the zone database and states what the rest of the crate
//! takes on trust about it. What such a call returns is given a name, a
//! function without a body, wherever its value cannot be written down in a few
//! lines: the zone a name stands for, its offset at an instant, and the text a
//! strftime pattern produces.

use chrono::{DateTime, FixedOffset, Offset, TimeZone};
use chrono_tz::{ParseError, Tz};
use std::fmt::Write;
use std::str::FromStr;
use vstd::prelude::*;

verus! {

/// The error of `chrono_tz::Tz::from_str`. It carries no data.
#[verifier::external_type_specification]
#[verifier::external_body]
pub struct ExZoneParseError(chrono_tz::ParseError);

/// Seconds since the Unix epoch of the first moment of chrono's calendar,
/// midnight on 1 January of the year -262143.
pub const MIN_UTC_SECS: i64 = -8_334_601_228_800;

/// Seconds since the Unix epoch of the last whole second of chrono's calendar,
/// 23:59:59 on 31 December of the year 262142.
pub const MAX_UTC_SECS: i64 = 8_210_266_876_799;

/// Whether chrono can hold the moment `nanos` nanoseconds after `utc_secs`
/// seconds since the Unix epoch. Leap seconds are left out.
pub open spec fn instant_in_calendar(utc_secs: int, nanos: int) -> bool {
    &&& MIN_UTC_SECS <= utc_secs <= MAX_UTC_SECS
    &&& 0 <= nanos < 1_000_000_000
}

/// Whether a UTC offset in seconds is less than a day either way, which is
/// what `chrono::FixedOffset` can hold.
pub open spec fn offset_within_a_day(offset_secs: int) -> bool {
    -86_400 < offset_secs < 86_400
}

/// Whether `id` is, letter for letter, a zone name of the database that
/// `chrono-tz` was built with.
pub uninterp spec fn zone_in_database(id: Seq<char>) -> bool;

/// The offset from UTC, in seconds east, that the zone `id` observes at
/// `utc_secs` seconds since the Unix epoch.
pub uninterp spec fn zone_utc_offset(id: Seq<char>, utc_secs: int) -> int;

/// The text that chrono writes for the strftime pattern `pattern` and the
/// given moment on the wall clock of the zone `id`, or `None` where the
/// writing fails, as it does on a pattern that chrono cannot read.
pub uninterp spec fn zone_time_text(
    id: Seq<char>,
    utc_secs: int,
    nanos: int,
    pattern: Seq<char>,
) -> Option<Seq<char>>;

/// The text that chrono writes for the strftime pattern `pattern` and the
/// given moment on a wall clock that runs `offset_secs` seconds east of UTC,
/// or `None` where the writing fails, as it does on a pattern that chrono
/// cannot read.
pub uninterp spec fn offset_time_text(
    offset_secs: int,
    utc_secs: int,
    nanos: int,
    pattern: Seq<char>,
) -> Option<Seq<char>>;

/// Calls `chrono_tz::Tz::from_str`, which looks `id` up in the table of zone
/// names. Claimed: whether it succeeds depends on `id` alone, which is what
/// `zone_in_database` names.
#[verifier::external_body]
pub(crate) fn find_zone(id: &str) -> (found: Result<(), ParseError>)
    ensures
        found is Ok <==> zone_in_database(id@),
{
    match Tz::from_str(id) {
        Ok(_) => Ok(()),
        Err(e) => Err(e),
    }
}

/// Calls `chrono_tz::Tz::offset_from_utc_datetime` on the zone that `id`
/// names and the moment `utc_secs`, and reads the seconds of the offset it
/// finds. Claimed: the call returns for every zone of the database and every
/// moment of the calendar, and its result depends on the zone and the whole
/// seconds of the moment alone, which is what `zone_utc_offset` names.
#[verifier::external_body]
pub(crate) fn utc_offset_at(id: &str, utc_secs: i64) -> (offset: i32)
    requires
        zone_in_database(id@),
        instant_in_calendar(utc_secs as int, 0),
    ensures
        offset == zone_utc_offset(id@, utc_secs as int),
{
    let zone = Tz::from_str(id).unwrap();
    let utc = DateTime::from_timestamp(utc_secs, 0).unwrap().naive_utc();
    zone.offset_from_utc_datetime(&utc).fix().local_minus_utc()
}

/// Calls `chrono::DateTime::format` on the moment as `with_timezone` shows it
/// in the zone that `id` names, and writes the outcome to a string. Claimed:
/// the call returns for every zone of the database and every moment of the
/// calendar, and whether the writing succeeds and what it writes depend on
/// the four arguments alone, which is what `zone_time_text` names.
#[verifier::external_body]
pub(crate) fn format_in_zone(id: &str, utc_secs: i64, nanos: u32, pattern: &str) -> (text: Option<
    String,
>)
    requires
        zone_in_database(id@),
        instant_in_calendar(utc_secs as int, nanos as int),
    ensures
        match text {
            Some(t) => zone_time_text(id@, utc_secs as int, nanos as int, pattern@) == Some(t@),
            None => zone_time_text(id@, utc_secs as int, nanos as int, pattern@) is None,
        },
{
    let zone = Tz::from_str(id).unwrap();
    let time = DateTime::from_timestamp(utc_secs, nanos).unwrap().with_timezone(&zone);
    let mut text = String::new();
    match write!(text, "{}", time.format(pattern)) {
        Ok(()) => Some(text),
        Err(_) => None,
    }
}

/// Calls `chrono::DateTime::format` on the moment as `with_timezone` shows it
/// at a `chrono::FixedOffset` of `offset_secs`, and writes the outcome to a
/// string. Claimed: the call returns for every offset of less than a day and
/// every moment of the calendar, and whether the writing succeeds and what it
/// writes depend on the four arguments alone, which is what
/// `offset_time_text` names.
#[verifier::external_body]
pub(crate) fn format_at_offset(offset_secs: i32, utc_secs: i64, nanos: u32, pattern: &str) -> (text:
    Option<String>)
    requires
        offset_within_a_day(offset_secs as int),
        instant_in_calendar(utc_secs as int, nanos as int),
    ensures
        match text {
            Some(t) => offset_time_text(
                offset_secs as int,
                utc_secs as int,
                nanos as int,
                pattern@,
            ) == Some(t@),
            None => offset_time_text(
                offset_secs as int,
                utc_secs as int,
                nanos as int,
                pattern@,
            ) is None,
        },
{
    let offset = FixedOffset::east_opt(offset_secs).unwrap();
    let time = DateTime::from_timestamp(utc_secs, nanos).unwrap().with_timezone(&offset);
    let mut text = String::new();
    match write!(text, "{}", time.format(pattern)) {
        Ok(()) => Some(text),
        Err(_) => None,
    }
}

} // verus!
