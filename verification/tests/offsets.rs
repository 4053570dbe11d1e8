use chrono::Duration;
use worldtime::offset::decimal_string;
use worldtime::{format_offset, offset_annotation, ZeroOffset};

/// The rendering written with chrono's own duration arithmetic.
fn with_chrono(duration: &Duration) -> String {
    let hours = duration.num_hours();
    let minutes = duration.num_minutes() % 60;
    if minutes == 0 {
        format!("{hours:+}h")
    } else {
        format!("{hours:+}h{}m", minutes.abs())
    }
}

#[test]
fn whole_hours_ahead() {
    assert_eq!(format_offset(3600 * 5), "+5h");
}

#[test]
fn hours_and_minutes_ahead() {
    assert_eq!(format_offset(3600 * 5 + 1800), "+5h30m");
}

#[test]
fn whole_hours_behind() {
    assert_eq!(format_offset(-(3600 * 3)), "-3h");
}

#[test]
fn hours_and_minutes_behind_show_one_sign() {
    assert_eq!(format_offset(-(3600 * 3 + 1800)), "-3h30m");
    assert_eq!(format_offset(-(3600 * 9 + 2700)), "-9h45m");
}

#[test]
fn zero_is_plus_zero_hours() {
    assert_eq!(format_offset(0), "+0h");
}

#[test]
fn less_than_an_hour_has_zero_hours() {
    assert_eq!(format_offset(1800), "+0h30m");
    assert_eq!(format_offset(-1800), "+0h30m");
    assert_eq!(format_offset(60), "+0h1m");
    assert_eq!(format_offset(-60), "+0h1m");
}

#[test]
fn seconds_short_of_a_minute_are_dropped() {
    assert_eq!(format_offset(59), "+0h");
    assert_eq!(format_offset(-59), "+0h");
    assert_eq!(format_offset(3599), "+0h59m");
    assert_eq!(format_offset(-3599), "+0h59m");
    assert_eq!(format_offset(3600 + 61), "+1h1m");
    assert_eq!(format_offset(-(3600 + 61)), "-1h1m");
}

#[test]
fn many_digits() {
    assert_eq!(format_offset(3600 * 14), "+14h");
    assert_eq!(format_offset(3600 * 100 + 60 * 7), "+100h7m");
    assert_eq!(format_offset(-(3600 * 1234 + 60 * 50)), "-1234h50m");
}

#[test]
fn the_ends_of_the_range() {
    assert_eq!(format_offset(i64::MAX), "+2562047788015215h30m");
    assert_eq!(format_offset(i64::MIN), "-2562047788015215h30m");
}

#[test]
fn agrees_with_chrono_durations() {
    let mut secs: i64 = -200_000;
    while secs <= 200_000 {
        assert_eq!(format_offset(secs), with_chrono(&Duration::seconds(secs)), "{} s", secs);
        secs += 7;
    }
    for secs in [-86_399, -3600, -61, -60, -1, 0, 1, 60, 61, 3600, 86_399, 1 << 40, -(1 << 40)] {
        assert_eq!(format_offset(secs), with_chrono(&Duration::seconds(secs)), "{} s", secs);
    }
}

#[test]
fn annotation_is_omitted_at_zero() {
    assert_eq!(offset_annotation(0, ZeroOffset::Omit), "");
    assert_eq!(offset_annotation(59, ZeroOffset::Omit), "");
    assert_eq!(offset_annotation(-59, ZeroOffset::Omit), "");
}

#[test]
fn annotation_is_shown_at_zero_on_request() {
    assert_eq!(offset_annotation(0, ZeroOffset::Show), "+0h");
    assert_eq!(offset_annotation(-59, ZeroOffset::Show), "+0h");
}

#[test]
fn annotation_is_the_offset_away_from_zero() {
    for mode in [ZeroOffset::Omit, ZeroOffset::Show] {
        assert_eq!(offset_annotation(60, mode), "+0h1m");
        assert_eq!(offset_annotation(-60, mode), "+0h1m");
        assert_eq!(offset_annotation(3600 * 5, mode), "+5h");
        assert_eq!(offset_annotation(3600 * 5 + 1800, mode), "+5h30m");
        assert_eq!(offset_annotation(-(3600 * 3), mode), "-3h");
    }
}

#[test]
fn decimal_digits() {
    assert_eq!(decimal_string(0), "0");
    assert_eq!(decimal_string(7), "7");
    assert_eq!(decimal_string(10), "10");
    assert_eq!(decimal_string(1234567890), "1234567890");
    assert_eq!(decimal_string(u64::MAX), "18446744073709551615");
    for n in 0..2000u64 {
        assert_eq!(decimal_string(n), n.to_string());
    }
}
