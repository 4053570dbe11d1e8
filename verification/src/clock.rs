//! From tokens to the lines of the report.

use crate::error::ClockError;
use crate::instant::{LocalInstant, LocalMoment};
use crate::offset::ZeroOffset;
use crate::order::{is_stable_sort, sort_by_civil_time};
use crate::render::{is_report, render_report, report_fails};
use crate::resolve::{resolved, ExplicitTz};
use crate::tzdb::zone_in_database;
use crate::zone::{identifier_of, request_of, TzWithName};
use vstd::prelude::*;
use vstd::string::*;

verus! {

/// Whether the token at place `k` is the first whose identifier names no
/// zone of the database.
pub open spec fn is_first_unknown(tokens: Seq<String>, k: int) -> bool {
    &&& 0 <= k < tokens.len()
    &&& !zone_in_database(identifier_of(tokens[k]@))
    &&& forall|j: int| 0 <= j < k ==> zone_in_database(identifier_of((#[trigger] tokens[j])@))
}

/// Whether `requests` holds, place for place, what `tokens` ask for.
pub open spec fn is_parse_of(requests: Seq<TzWithName>, tokens: Seq<String>) -> bool {
    &&& requests.len() == tokens.len()
    &&& forall|i: int|
        0 <= i < tokens.len() ==> zone_in_database(identifier_of((#[trigger] tokens[i])@))
    &&& forall|i: int|
        0 <= i < tokens.len() ==> (#[trigger] requests[i])@ == request_of(tokens[i]@)
}

/// Whether `zones` holds, place for place, `requests` resolved at `local`
/// against the local offset `local_offset`.
pub open spec fn is_resolution(
    zones: Seq<ExplicitTz>,
    local: LocalMoment,
    local_offset: int,
    requests: Seq<TzWithName>,
) -> bool {
    &&& zones.len() == requests.len()
    &&& forall|i: int|
        0 <= i < requests.len() ==> (#[trigger] zones[i])@ == resolved(
            local,
            local_offset,
            requests[i]@,
        )
}

/// Parses every token. All of them must name a zone: the first that does not
/// is reported, and nothing is returned for the others.
pub fn parse_zones(tokens: &Vec<String>) -> (parsed: Result<Vec<TzWithName>, ClockError>)
    ensures
        match parsed {
            Ok(requests) => is_parse_of(requests@, tokens@),
            Err(error) => exists|k: int|
                {
                    &&& #[trigger] is_first_unknown(tokens@, k)
                    &&& error matches ClockError::InvalidTimeZone(token)
                    &&& token@ == tokens[k]@
                },
        },
{
    let mut requests: Vec<TzWithName> = Vec::new();
    let mut i: usize = 0;
    while i < tokens.len()
        invariant
            i <= tokens.len(),
            is_parse_of(requests@, tokens@.take(i as int)),
        decreases tokens.len() - i,
    {
        match TzWithName::from_str(tokens[i].as_str()) {
            Ok(request) => {
                let ghost seen = tokens@.take(i as int);
                let ghost more = tokens@.take(i + 1);
                let ghost before = requests@;
                requests.push(request);
                proof {
                    assert forall|j: int| 0 <= j < more.len() implies zone_in_database(
                        identifier_of((#[trigger] more[j])@),
                    ) by {
                        if j < i {
                            assert(more[j] == seen[j]);
                        }
                    }
                    assert forall|j: int| 0 <= j < more.len() implies (#[trigger] requests@[j])@
                        == request_of(more[j]@) by {
                        if j < i {
                            assert(more[j] == seen[j]);
                            assert(requests@[j] == before[j]);
                        }
                    }
                }
            },
            Err(error) => {
                proof {
                    let seen = tokens@.take(i as int);
                    assert forall|j: int| 0 <= j < i implies zone_in_database(
                        identifier_of((#[trigger] tokens@[j])@),
                    ) by {
                        assert(tokens@[j] == seen[j]);
                    }
                    assert(is_first_unknown(tokens@, i as int));
                }
                return Err(error);
            },
        }
        i = i + 1;
    }
    proof {
        assert(tokens@.take(i as int) =~= tokens@);
    }
    Ok(requests)
}

/// Resolves every request against the one reference instant.
pub fn resolve_zones(local: &LocalInstant, local_offset_secs: i32, requests: &Vec<TzWithName>) -> (zones:
    Vec<ExplicitTz>)
    ensures
        is_resolution(zones@, local@, local_offset_secs as int, requests@),
{
    let mut zones: Vec<ExplicitTz> = Vec::new();
    let mut i: usize = 0;
    while i < requests.len()
        invariant
            i <= requests.len(),
            zones.len() == i,
            forall|j: int|
                0 <= j < i ==> (#[trigger] zones[j])@ == resolved(
                    local@,
                    local_offset_secs as int,
                    requests[j]@,
                ),
        decreases requests.len() - i,
    {
        let zone = ExplicitTz::new(local, local_offset_secs, requests[i].clone());
        zones.push(zone);
        i = i + 1;
    }
    zones
}

/// Produces the report for `requests` at the reference instant `local`:
/// resolves every zone against that instant and its local offset, puts the
/// zones in display order and renders the lines.
pub fn world_clock(
    local: &LocalInstant,
    requests: &Vec<TzWithName>,
    pattern: &str,
    no_align: bool,
    no_local: bool,
    mode: ZeroOffset,
) -> (report: Result<Vec<String>, ClockError>)
    ensures
        exists|zones: Seq<ExplicitTz>, sorted: Seq<ExplicitTz>, origin: Seq<int>|
            {
                &&& is_resolution(zones, local@, local@.offset_secs, requests@)
                &&& #[trigger] is_stable_sort(sorted, zones, origin)
                &&& match report {
                    Ok(lines) => is_report(
                        lines@,
                        local@,
                        sorted,
                        pattern@,
                        no_align,
                        no_local,
                        mode,
                    ),
                    Err(error) => {
                        &&& report_fails(local@, sorted, pattern@)
                        &&& error matches ClockError::InvalidFormatPattern(text)
                        &&& text@ == pattern@
                    },
                }
            },
{
    let mut zones = resolve_zones(local, local.local_offset(), requests);
    let ghost resolved_zones = zones@;
    sort_by_civil_time(&mut zones);
    let report = render_report(local, &zones, pattern, no_align, no_local, mode);
    proof {
        let origin = choose|origin: Seq<int>| is_stable_sort(zones@, resolved_zones, origin);
        assert(is_stable_sort(zones@, resolved_zones, origin));
    }
    report
}

} // verus!
