use chrono::{DateTime, FixedOffset, Offset, TimeZone};
use chrono_tz::Tz;
use worldtime::{
    format_offset, parse_zones, render_line, render_local, render_report, render_zone,
    resolve_zones, sort_by_civil_time, world_clock, ClockError, ExplicitTz, LocalInstant,
    TzWithName, ZeroOffset, DEFAULT_PATTERN,
};

/// Monday 15 January 2024, 12:00:00 UTC.
const WINTER_NOON: i64 = 1_705_320_000;

/// Monday 1 July 2024, 12:00:00 UTC.
const SUMMER_NOON: i64 = 1_719_835_200;

fn requests(tokens: &[&str]) -> Vec<TzWithName> {
    let tokens: Vec<String> = tokens.iter().map(|token| token.to_string()).collect();
    parse_zones(&tokens).unwrap()
}

/// The report put together with chrono alone: every zone resolved against
/// the one instant, a stable sort by the naive local time, the widest label
/// for the column and the offset in brackets on every zone's line.
fn with_chrono(
    utc_secs: i64,
    local_offset: i32,
    tokens: &[&str],
    pattern: &str,
    no_align: bool,
    no_local: bool,
) -> Vec<String> {
    let local = DateTime::from_timestamp(utc_secs, 0)
        .unwrap()
        .with_timezone(&FixedOffset::east_opt(local_offset).unwrap());
    let mut zones: Vec<(String, i64, DateTime<Tz>)> = tokens
        .iter()
        .map(|token| {
            let (identifier, name) = token.split_once('@').unwrap_or((token, token));
            let zone: Tz = identifier.parse().unwrap();
            let remote = zone.offset_from_utc_datetime(&local.naive_utc()).fix().local_minus_utc();
            (name.to_string(), i64::from(remote - local_offset), local.with_timezone(&zone))
        })
        .collect();
    zones.sort_by_key(|zone| zone.2.naive_local());
    let width = if no_align { 0 } else { zones.iter().map(|zone| zone.0.len()).max().unwrap_or(0) };
    let mut lines = Vec::new();
    if !no_local {
        lines.push(format!("{: >width$}: {}", "Local", local.format(pattern)));
        lines.push(String::new());
    }
    for (name, offset, time) in zones {
        lines.push(format!(
            "{: >width$}: {} ({})",
            name,
            time.format(pattern),
            format_offset(offset)
        ));
    }
    lines
}

#[test]
fn line_without_padding() {
    assert_eq!(render_line("Home", 0, "Mon 12:00", "+5h"), "Home: Mon 12:00 (+5h)");
    assert_eq!(render_line("Home", 4, "Mon 12:00", "+5h"), "Home: Mon 12:00 (+5h)");
    assert_eq!(render_line("Home", 3, "Mon 12:00", "+5h"), "Home: Mon 12:00 (+5h)");
}

#[test]
fn line_is_padded_on_the_left() {
    assert_eq!(render_line("Home", 7, "Mon 12:00", "-3h"), "   Home: Mon 12:00 (-3h)");
    assert_eq!(render_line("", 2, "t", "a"), "  : t (a)");
}

#[test]
fn line_without_annotation_has_no_brackets() {
    assert_eq!(render_line("Local", 8, "Mon 12:00", ""), "   Local: Mon 12:00");
    assert_eq!(render_line("Local", 0, "", ""), "Local: ");
}

#[test]
fn padding_counts_characters() {
    assert_eq!(render_line("Z\u{fc}rich", 7, "t", ""), " Z\u{fc}rich: t");
    assert_eq!(render_line("\u{1f3e0}", 4, "t", ""), "   \u{1f3e0}: t");
}

#[test]
fn line_agrees_with_std_formatting() {
    for label in ["", "a", "Home", "Europe/London", "Z\u{fc}rich"] {
        for width in 0..16usize {
            assert_eq!(
                render_line(label, width, "time", "+1h"),
                format!("{: >width$}: {} ({})", label, "time", "+1h")
            );
        }
    }
}

#[test]
fn local_line() {
    let local = LocalInstant::new(WINTER_NOON, 0, -18_000).unwrap();
    assert_eq!(
        render_local(&local, DEFAULT_PATTERN, 13).unwrap(),
        "        Local: Mon 2024-01-15 07:00"
    );
    assert_eq!(render_local(&local, "%H:%M", 0).unwrap(), "Local: 07:00");
    assert!(render_local(&local, "%", 0).is_none());
}

#[test]
fn zone_line() {
    let local = LocalInstant::new(WINTER_NOON, 0, -18_000).unwrap();
    let tokyo = ExplicitTz::new(&local, -18_000, TzWithName::from_str("Asia/Tokyo@Home").unwrap());
    assert_eq!(
        render_zone(&tokyo, DEFAULT_PATTERN, 13, ZeroOffset::Omit).unwrap(),
        "         Home: Mon 2024-01-15 21:00 (+14h)"
    );
    assert!(render_zone(&tokyo, "%H:%", 13, ZeroOffset::Omit).is_none());
}

#[test]
fn zone_line_at_the_local_offset() {
    let local = LocalInstant::new(SUMMER_NOON, 0, 3600).unwrap();
    let london = ExplicitTz::new(&local, 3600, TzWithName::from_str("Europe/London").unwrap());
    assert_eq!(
        render_zone(&london, DEFAULT_PATTERN, 0, ZeroOffset::Omit).unwrap(),
        "Europe/London: Mon 2024-07-01 13:00"
    );
    assert_eq!(
        render_zone(&london, DEFAULT_PATTERN, 0, ZeroOffset::Show).unwrap(),
        "Europe/London: Mon 2024-07-01 13:00 (+0h)"
    );
}

#[test]
fn london_and_tokyo_from_new_york() {
    let local = LocalInstant::new(WINTER_NOON, 0, -18_000).unwrap();
    let lines = world_clock(
        &local,
        &requests(&["Europe/London", "Asia/Tokyo@Home"]),
        DEFAULT_PATTERN,
        false,
        false,
        ZeroOffset::Omit,
    )
    .unwrap();
    assert_eq!(
        lines,
        [
            "        Local: Mon 2024-01-15 07:00",
            "",
            "Europe/London: Mon 2024-01-15 12:00 (+5h)",
            "         Home: Mon 2024-01-15 21:00 (+14h)",
        ]
    );
}

#[test]
fn zones_are_listed_by_wall_clock_not_by_input() {
    let local = LocalInstant::new(SUMMER_NOON, 0, 0).unwrap();
    let lines = world_clock(
        &local,
        &requests(&["Asia/Tokyo@Home", "Europe/London", "America/New_York@NYC", "Asia/Kolkata"]),
        DEFAULT_PATTERN,
        true,
        true,
        ZeroOffset::Show,
    )
    .unwrap();
    assert_eq!(
        lines,
        [
            "NYC: Mon 2024-07-01 08:00 (-4h)",
            "Europe/London: Mon 2024-07-01 13:00 (+1h)",
            "Asia/Kolkata: Mon 2024-07-01 17:30 (+5h30m)",
            "Home: Mon 2024-07-01 21:00 (+9h)",
        ]
    );
}

#[test]
fn zones_on_the_same_clock_keep_input_order() {
    let local = LocalInstant::new(WINTER_NOON, 0, 3600).unwrap();
    let lines = world_clock(
        &local,
        &requests(&["Europe/Paris@second", "Europe/Berlin@first", "UTC", "Europe/Rome@third"]),
        "%H:%M",
        false,
        true,
        ZeroOffset::Omit,
    )
    .unwrap();
    assert_eq!(
        lines,
        ["   UTC: 12:00 (-1h)", "second: 13:00", " first: 13:00", " third: 13:00"]
    );
}

#[test]
fn the_day_may_differ_between_zones() {
    let local = LocalInstant::new(WINTER_NOON + 11 * 3600, 0, 0).unwrap();
    let lines = world_clock(
        &local,
        &requests(&["Pacific/Auckland", "Pacific/Honolulu"]),
        DEFAULT_PATTERN,
        false,
        false,
        ZeroOffset::Omit,
    )
    .unwrap();
    assert_eq!(
        lines,
        [
            "           Local: Mon 2024-01-15 23:00",
            "",
            "Pacific/Honolulu: Mon 2024-01-15 13:00 (-10h)",
            "Pacific/Auckland: Tue 2024-01-16 12:00 (+13h)",
        ]
    );
}

#[test]
fn no_zones_give_the_local_line_alone() {
    let local = LocalInstant::new(WINTER_NOON, 0, 0).unwrap();
    let lines =
        world_clock(&local, &Vec::new(), DEFAULT_PATTERN, false, false, ZeroOffset::Omit).unwrap();
    assert_eq!(lines, ["Local: Mon 2024-01-15 12:00", ""]);
    let none =
        world_clock(&local, &Vec::new(), DEFAULT_PATTERN, false, true, ZeroOffset::Omit).unwrap();
    assert!(none.is_empty());
}

#[test]
fn unusable_pattern_is_an_error_and_gives_no_line() {
    let local = LocalInstant::new(WINTER_NOON, 0, 0).unwrap();
    for no_local in [false, true] {
        let report = world_clock(
            &local,
            &requests(&["Europe/London", "Asia/Tokyo@Home"]),
            "%H:%M %",
            false,
            no_local,
            ZeroOffset::Omit,
        );
        let error = report.unwrap_err();
        assert_eq!(error, ClockError::InvalidFormatPattern("%H:%M %".to_string()));
        assert_eq!(error.message(), "invalid time format '%H:%M %'");
    }
}

#[test]
fn unusable_pattern_is_an_error_even_where_no_line_needs_it() {
    let local = LocalInstant::new(WINTER_NOON, 0, 0).unwrap();
    let report = world_clock(&local, &Vec::new(), "%", false, true, ZeroOffset::Omit);
    assert_eq!(report.unwrap_err(), ClockError::InvalidFormatPattern("%".to_string()));
}

#[test]
fn default_pattern_is_weekday_date_hour_and_minute() {
    assert_eq!(DEFAULT_PATTERN, "%a %F %H:%M");
    let local = LocalInstant::new(SUMMER_NOON + 59, 999_999_999, 34_200).unwrap();
    assert_eq!(local.format(DEFAULT_PATTERN).unwrap(), "Mon 2024-07-01 21:30");
}

#[test]
fn report_renders_zones_in_the_order_given() {
    let local = LocalInstant::new(WINTER_NOON, 0, 0).unwrap();
    let zones = resolve_zones(&local, 0, &requests(&["Asia/Tokyo", "UTC@here"]));
    let lines = render_report(&local, &zones, "%H", false, true, ZeroOffset::Show).unwrap();
    assert_eq!(lines, ["Asia/Tokyo: 21 (+9h)", "      here: 12 (+0h)"]);
}

#[test]
fn report_agrees_with_chrono() {
    let sets: [&[&str]; 5] = [
        &["Europe/London", "Asia/Tokyo@Home"],
        &["Asia/Tokyo@Home", "America/New_York", "Asia/Kolkata@IN", "Australia/Lord_Howe"],
        &["UTC", "Etc/GMT+12@west", "Pacific/Kiritimati@east", "Europe/Berlin", "Europe/Paris"],
        &["America/St_Johns@Z\u{fc}rich", "Asia/Kathmandu@"],
        &[],
    ];
    for tokens in sets {
        for utc_secs in [WINTER_NOON, SUMMER_NOON, 0, 951_782_400, 1_711_846_799, 1_711_846_800] {
            for local_offset in [0, -18_000, 3600, 20_700, 45_900] {
                for pattern in [DEFAULT_PATTERN, "%Y-%m-%dT%H:%M:%S%z %Z", "%c", "%s"] {
                    for (no_align, no_local) in
                        [(false, false), (true, false), (false, true), (true, true)]
                    {
                        let local = LocalInstant::new(utc_secs, 0, local_offset).unwrap();
                        let lines = world_clock(
                            &local,
                            &requests(tokens),
                            pattern,
                            no_align,
                            no_local,
                            ZeroOffset::Show,
                        )
                        .unwrap();
                        assert_eq!(
                            lines,
                            with_chrono(utc_secs, local_offset, tokens, pattern, no_align, no_local)
                        );
                    }
                }
            }
        }
    }
}

#[test]
fn sorting_then_rendering_is_the_whole_report() {
    let local = LocalInstant::new(SUMMER_NOON, 0, 7200).unwrap();
    let asked = requests(&["Asia/Tokyo@Home", "America/New_York", "Europe/London"]);
    let mut zones = resolve_zones(&local, local.local_offset(), &asked);
    sort_by_civil_time(&mut zones);
    let by_hand =
        render_report(&local, &zones, DEFAULT_PATTERN, false, false, ZeroOffset::Omit).unwrap();
    let whole =
        world_clock(&local, &asked, DEFAULT_PATTERN, false, false, ZeroOffset::Omit).unwrap();
    assert_eq!(by_hand, whole);
    assert_eq!(whole.len(), 5);
}
