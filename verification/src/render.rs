//! The lines of the report.

use crate::error::ClockError;
use crate::instant::{LocalInstant, LocalMoment};
use crate::offset::{annotation_text, offset_annotation, ZeroOffset};
use crate::order::{column_width, label_width};
use crate::resolve::{ExplicitTz, ResolvedZone};
use crate::tzdb::{offset_time_text, zone_time_text};
use vstd::prelude::*;
use vstd::string::*;

verus! {

/// The pattern used where the caller names none: the weekday's short name,
/// the date as year-month-day, and the hour and minute of a 24-hour clock.
pub const DEFAULT_PATTERN: &'static str = "%a %F %H:%M";

/// `count` spaces.
pub open spec fn spaces(count: nat) -> Seq<char> {
    Seq::new(count, |i: int| ' ')
}

/// A label set flush right in a column `width` characters wide. A label that
/// is as long as the column or longer is left as it is.
pub open spec fn padded_label(label: Seq<char>, width: nat) -> Seq<char> {
    if label.len() >= width {
        label
    } else {
        spaces((width - label.len()) as nat) + label
    }
}

/// One line of the report: the padded label, a colon, the time and, unless it
/// is empty, the annotation in round brackets.
pub open spec fn line_text(
    label: Seq<char>,
    width: nat,
    time: Seq<char>,
    annotation: Seq<char>,
) -> Seq<char> {
    let stem = padded_label(label, width) + seq![':', ' '] + time;
    if annotation.len() == 0 {
        stem
    } else {
        stem + seq![' ', '('] + annotation + seq![')']
    }
}

/// Padding never shortens a label and never touches it: the padded label is
/// as long as the longer of label and column, it ends in the label, and what
/// stands before the label is spaces.
pub proof fn lemma_padded_label(label: Seq<char>, width: nat)
    ensures
        padded_label(label, width).len() == if label.len() >= width {
            label.len()
        } else {
            width
        },
        padded_label(label, width).skip(padded_label(label, width).len() - label.len())
            == label,
        forall|i: int|
            0 <= i < padded_label(label, width).len() - label.len() ==> padded_label(
                label,
                width,
            )[i] == ' ',
{
    let padded = padded_label(label, width);
    assert(padded.skip(padded.len() - label.len()) =~= label);
}

/// The label of the line for the local clock.
pub open spec fn local_label() -> Seq<char> {
    seq!['L', 'o', 'c', 'a', 'l']
}

/// The line for the local clock, or `None` where the pattern cannot be
/// rendered.
pub open spec fn local_line(local: LocalMoment, pattern: Seq<char>, width: nat) -> Option<
    Seq<char>,
> {
    match offset_time_text(local.offset_secs, local.utc_secs, local.nanos, pattern) {
        Some(time) => Some(line_text(local_label(), width, time, Seq::empty())),
        None => None,
    }
}

/// The line for a zone, or `None` where the pattern cannot be rendered.
pub open spec fn zone_line(
    zone: ResolvedZone,
    pattern: Seq<char>,
    width: nat,
    mode: ZeroOffset,
) -> Option<Seq<char>> {
    match zone_time_text(zone.time.zone, zone.time.utc_secs, zone.time.nanos, pattern) {
        Some(time) => Some(
            line_text(zone.label, width, time, annotation_text(zone.offset_from_local, mode)),
        ),
        None => None,
    }
}

/// Writes one line of the report from its four parts.
pub fn render_line(label: &str, width: usize, time: &str, annotation: &str) -> (line: String)
    ensures
        line@ == line_text(label@, width as nat, time@, annotation@),
{
    let length = label.unicode_len();
    let mut line = String::new();
    let mut filled: usize = length;
    proof {
        reveal_strlit(": ");
        reveal_strlit(" (");
        reveal_strlit(")");
    }
    while filled < width
        invariant
            length == label@.len(),
            length <= filled,
            filled <= width || filled == length,
            line@ == spaces((filled - length) as nat),
        decreases width - filled,
    {
        proof {
            reveal_strlit(" ");
        }
        line.append(" ");
        filled = filled + 1;
        assert(line@ =~= spaces((filled - length) as nat));
    }
    line.append(label);
    assert(line@ =~= padded_label(label@, width as nat));
    line.append(": ");
    line.append(time);
    if annotation.unicode_len() > 0 {
        line.append(" (");
        line.append(annotation);
        line.append(")");
    }
    assert(line@ =~= line_text(label@, width as nat, time@, annotation@));
    line
}

/// Renders the line for the local clock in a label column of `width`.
pub fn render_local(local: &LocalInstant, pattern: &str, width: usize) -> (line: Option<String>)
    ensures
        match line {
            Some(text) => local_line(local@, pattern@, width as nat) == Some(text@),
            None => local_line(local@, pattern@, width as nat) is None,
        },
{
    proof {
        reveal_strlit("Local");
        reveal_strlit("");
        assert("Local"@ =~= local_label());
        assert(""@ =~= Seq::<char>::empty());
    }
    match local.format(pattern) {
        Some(time) => Some(render_line("Local", width, time.as_str(), "")),
        None => None,
    }
}

/// Renders the line for a zone in a label column of `width`.
pub fn render_zone(zone: &ExplicitTz, pattern: &str, width: usize, mode: ZeroOffset) -> (line:
    Option<String>)
    ensures
        match line {
            Some(text) => zone_line(zone@, pattern@, width as nat, mode) == Some(text@),
            None => zone_line(zone@, pattern@, width as nat, mode) is None,
        },
{
    match zone.dt().format(pattern) {
        Some(time) => {
            let annotation = offset_annotation(zone.offset_from_local(), mode);
            Some(render_line(zone.name(), width, time.as_str(), annotation.as_str()))
        },
        None => None,
    }
}

/// How many lines stand before the first zone: the local line and a blank
/// one, or none.
pub open spec fn head_lines(no_local: bool) -> int {
    if no_local {
        0
    } else {
        2
    }
}

/// Whether `lines` is the report for `zones` in the order given: unless it is
/// switched off, the local line and a blank line; then one line for each
/// zone, all in a label column as wide as `column_width` says.
pub open spec fn is_report(
    lines: Seq<String>,
    local: LocalMoment,
    zones: Seq<ExplicitTz>,
    pattern: Seq<char>,
    no_align: bool,
    no_local: bool,
    mode: ZeroOffset,
) -> bool {
    let width = column_width(zones, no_align);
    let head = head_lines(no_local);
    &&& lines.len() == head + zones.len()
    &&& local_line(local, pattern, width) is Some
    &&& !no_local ==> local_line(local, pattern, width) == Some(lines[0]@) && lines[1]@.len() == 0
    &&& forall|i: int|
        0 <= i < zones.len() ==> zone_line((#[trigger] zones[i])@, pattern, width, mode) == Some(
            lines[head + i]@,
        )
}

/// Whether the pattern fails on the local clock or on the clock of one of
/// the zones. The local clock counts whether or not its line is printed.
pub open spec fn report_fails(local: LocalMoment, zones: Seq<ExplicitTz>, pattern: Seq<char>)
    -> bool {
    ||| offset_time_text(local.offset_secs, local.utc_secs, local.nanos, pattern) is None
    ||| exists|i: int|
        0 <= i < zones.len() && zone_time_text(
            (#[trigger] zones[i])@.time.zone,
            zones[i]@.time.utc_secs,
            zones[i]@.time.nanos,
            pattern,
        ) is None
}

/// Renders the whole report for zones that stand in display order. The
/// pattern is tried on the local clock first, printed or not, and then on
/// every zone: either every line is rendered or none is returned and the
/// pattern is reported.
pub fn render_report(
    local: &LocalInstant,
    zones: &Vec<ExplicitTz>,
    pattern: &str,
    no_align: bool,
    no_local: bool,
    mode: ZeroOffset,
) -> (report: Result<Vec<String>, ClockError>)
    ensures
        match report {
            Ok(lines) => is_report(lines@, local@, zones@, pattern@, no_align, no_local, mode),
            Err(error) => {
                &&& report_fails(local@, zones@, pattern@)
                &&& error matches ClockError::InvalidFormatPattern(text)
                &&& text@ == pattern@
            },
        },
{
    let width = label_width(zones, no_align);
    let mut lines: Vec<String> = Vec::new();
    match render_local(local, pattern, width) {
        Some(line) => {
            if !no_local {
                lines.push(line);
                lines.push(String::new());
            }
        },
        None => {
            return Err(ClockError::InvalidFormatPattern(String::from_str(pattern)));
        },
    }
    let ghost head = head_lines(no_local);
    let mut i: usize = 0;
    while i < zones.len()
        invariant
            i <= zones.len(),
            head == head_lines(no_local),
            width == column_width(zones@, no_align),
            lines.len() == head + i,
            local_line(local@, pattern@, width as nat) is Some,
            !no_local ==> local_line(local@, pattern@, width as nat) == Some(lines[0]@)
                && lines[1]@.len() == 0,
            forall|j: int|
                0 <= j < i ==> zone_line((#[trigger] zones[j])@, pattern@, width as nat, mode)
                    == Some(lines[head + j]@),
        decreases zones.len() - i,
    {
        match render_zone(&zones[i], pattern, width, mode) {
            Some(line) => {
                lines.push(line);
            },
            None => {
                return Err(ClockError::InvalidFormatPattern(String::from_str(pattern)));
            },
        }
        i = i + 1;
    }
    Ok(lines)
}

} // verus!
