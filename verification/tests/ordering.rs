use worldtime::{label_width, sort_by_civil_time, ExplicitTz, LocalInstant, TzWithName};

const NOON: i64 = 1_705_320_000;

fn zone(label: &str, remote_offset: i32) -> ExplicitTz {
    let local = LocalInstant::new(NOON, 0, 0).unwrap();
    let request = TzWithName::from_str(&format!("UTC@{}", label)).unwrap();
    ExplicitTz::from_offset(&local, 0, request, remote_offset)
}

fn labels(zones: &Vec<ExplicitTz>) -> Vec<String> {
    zones.iter().map(|zone| zone.name().to_string()).collect()
}

#[test]
fn sorts_by_wall_clock_time() {
    let mut zones = vec![zone("tokyo", 32_400), zone("new york", -18_000), zone("london", 0)];
    sort_by_civil_time(&mut zones);
    assert_eq!(labels(&zones), ["new york", "london", "tokyo"]);
}

#[test]
fn equal_times_keep_input_order() {
    let mut zones = vec![
        zone("c", 3600),
        zone("a1", 0),
        zone("b1", 3600),
        zone("a2", 0),
        zone("z", -3600),
        zone("b2", 3600),
        zone("a3", 0),
    ];
    sort_by_civil_time(&mut zones);
    assert_eq!(labels(&zones), ["z", "a1", "a2", "a3", "c", "b1", "b2"]);
}

#[test]
fn sorted_input_is_left_alone() {
    let mut zones = vec![zone("a", -7200), zone("b", 0), zone("c", 0), zone("d", 3600)];
    sort_by_civil_time(&mut zones);
    assert_eq!(labels(&zones), ["a", "b", "c", "d"]);
}

#[test]
fn reversed_input_is_turned_round() {
    let mut zones = vec![zone("d", 3600), zone("c", 1800), zone("b", 0), zone("a", -1)];
    sort_by_civil_time(&mut zones);
    assert_eq!(labels(&zones), ["a", "b", "c", "d"]);
}

#[test]
fn nothing_and_one_zone_sort_to_themselves() {
    let mut none: Vec<ExplicitTz> = Vec::new();
    sort_by_civil_time(&mut none);
    assert!(none.is_empty());
    let mut one = vec![zone("only", 60)];
    sort_by_civil_time(&mut one);
    assert_eq!(labels(&one), ["only"]);
}

#[test]
fn nanoseconds_break_ties_between_instants() {
    let utc = TzWithName::from_str("UTC@late").unwrap();
    let late = ExplicitTz::from_offset(&LocalInstant::new(NOON, 9, 0).unwrap(), 0, utc, 0);
    let utc = TzWithName::from_str("UTC@early").unwrap();
    let early = ExplicitTz::from_offset(&LocalInstant::new(NOON, 8, 0).unwrap(), 0, utc, 0);
    let mut zones = vec![late, early];
    sort_by_civil_time(&mut zones);
    assert_eq!(labels(&zones), ["early", "late"]);
}

#[test]
fn sort_agrees_with_a_stable_sort_by_key() {
    let mut seed: u64 = 0x2545_f491_4f6c_dd1d;
    for round in 0..200 {
        let mut zones = Vec::new();
        let mut keys = Vec::new();
        for place in 0..(round % 17) {
            seed ^= seed << 13;
            seed ^= seed >> 7;
            seed ^= seed << 17;
            let offset = ((seed % 7) as i32 - 3) * 1800;
            zones.push(zone(&format!("{}", place), offset));
            keys.push((offset, format!("{}", place)));
        }
        keys.sort_by_key(|(offset, _)| *offset);
        sort_by_civil_time(&mut zones);
        let expected: Vec<String> = keys.into_iter().map(|(_, label)| label).collect();
        assert_eq!(labels(&zones), expected);
    }
}

#[test]
fn width_is_the_longest_label() {
    let zones = vec![zone("abc", 0), zone("abcdefghij", 0), zone("a", 0)];
    assert_eq!(label_width(&zones, false), 10);
}

#[test]
fn width_is_zero_without_alignment() {
    let zones = vec![zone("abc", 0), zone("abcdefghij", 0), zone("a", 0)];
    assert_eq!(label_width(&zones, true), 0);
}

#[test]
fn width_of_no_zones_is_zero() {
    assert_eq!(label_width(&Vec::new(), false), 0);
    assert_eq!(label_width(&Vec::new(), true), 0);
}

#[test]
fn width_counts_bytes() {
    let zones = vec![zone("Z\u{fc}rich", 0), zone("Berlin", 0)];
    assert_eq!(label_width(&zones, false), 7);
    let empty = vec![zone("", 0)];
    assert_eq!(label_width(&empty, false), 0);
}

#[test]
fn width_does_not_depend_on_the_order() {
    let mut zones = vec![zone("longest label", 7200), zone("x", 0), zone("mid", -3600)];
    let before = label_width(&zones, false);
    sort_by_civil_time(&mut zones);
    assert_eq!(label_width(&zones, false), before);
    assert_eq!(before, 13);
}
