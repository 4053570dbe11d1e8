//! The offset annotation: how far a zone's clock is from the local one,
//! written as signed hours and, where there are any, minutes.

use vstd::prelude::*;
use vstd::string::*;

verus! {

/// The whole hours of an offset in seconds, rounded toward zero.
pub open spec fn offset_hours(secs: int) -> int {
    if secs >= 0 {
        secs / 3600
    } else {
        -((-secs) / 3600)
    }
}

/// The whole minutes of an offset that its whole hours leave over. It lies
/// strictly between -60 and 60 and is never of the opposite sign to `secs`.
pub open spec fn offset_minutes(secs: int) -> int {
    if secs >= 0 {
        (secs / 60) % 60
    } else {
        -(((-secs) / 60) % 60)
    }
}

/// The character for one decimal digit.
pub open spec fn digit_char(d: int) -> char {
    if d == 0 {
        '0'
    } else if d == 1 {
        '1'
    } else if d == 2 {
        '2'
    } else if d == 3 {
        '3'
    } else if d == 4 {
        '4'
    } else if d == 5 {
        '5'
    } else if d == 6 {
        '6'
    } else if d == 7 {
        '7'
    } else if d == 8 {
        '8'
    } else {
        '9'
    }
}

/// A natural number in decimal, without leading zeros.
pub open spec fn decimal(n: nat) -> Seq<char>
    decreases n,
{
    if n < 10 {
        seq![digit_char(n as int)]
    } else {
        decimal(n / 10).push(digit_char((n % 10) as int))
    }
}

/// An integer in decimal with its sign always written; zero counts as
/// positive.
pub open spec fn signed_decimal(n: int) -> Seq<char> {
    if n < 0 {
        seq!['-'] + decimal((-n) as nat)
    } else {
        seq!['+'] + decimal(n as nat)
    }
}

/// The annotation for an offset of `secs` seconds: the signed hours and `h`,
/// then, unless they are zero, the minutes without a sign and `m`.
pub open spec fn offset_text(secs: int) -> Seq<char> {
    let hours = offset_hours(secs);
    let minutes = offset_minutes(secs);
    if minutes == 0 {
        signed_decimal(hours) + seq!['h']
    } else if minutes > 0 {
        signed_decimal(hours) + seq!['h'] + decimal(minutes as nat) + seq!['m']
    } else {
        signed_decimal(hours) + seq!['h'] + decimal((-minutes) as nat) + seq!['m']
    }
}

/// Whether an offset has neither a whole hour nor a whole minute in it.
pub open spec fn rounds_to_zero(secs: int) -> bool {
    offset_hours(secs) == 0 && offset_minutes(secs) == 0
}

/// What to print for a zone whose clock reads the same hour and minute as the
/// local clock.
#[derive(Clone, Copy, Debug, PartialEq, Eq)]
pub enum ZeroOffset {
    /// Print no annotation.
    Omit,
    /// Print `+0h`, as for any other zone.
    Show,
}

/// The annotation under a display mode: nothing for an offset that rounds to
/// zero where the mode omits it, the offset's text otherwise.
pub open spec fn annotation_text(secs: int, mode: ZeroOffset) -> Seq<char> {
    if mode is Omit && rounds_to_zero(secs) {
        Seq::empty()
    } else {
        offset_text(secs)
    }
}

/// Hours and minutes take an offset apart without loss but for the seconds
/// short of a minute: the minutes are fewer than sixty, neither part has the
/// opposite sign to the offset, and together they are less than a minute
/// from it, on the side of zero.
pub proof fn lemma_offset_parts(secs: int)
    ensures
        -60 < offset_minutes(secs) < 60,
        secs >= 0 ==> offset_hours(secs) >= 0 && offset_minutes(secs) >= 0,
        secs <= 0 ==> offset_hours(secs) <= 0 && offset_minutes(secs) <= 0,
        secs >= 0 ==> 0 <= secs - (3600 * offset_hours(secs) + 60 * offset_minutes(secs)) < 60,
        secs <= 0 ==> -60 < secs - (3600 * offset_hours(secs) + 60 * offset_minutes(secs)) <= 0,
        offset_hours(-secs) == -offset_hours(secs),
        offset_minutes(-secs) == -offset_minutes(secs),
{
    let m: int = if secs >= 0 {
        secs
    } else {
        -secs
    };
    assert(m / 3600 == (m / 60) / 60 && 0 <= m - 60 * (m / 60) < 60 && (m / 60) % 60 == (m / 60)
        - 60 * ((m / 60) / 60)) by (nonlinear_arith)
        requires
            m >= 0,
    ;
}

/// An offset rounds to zero exactly when it is less than a minute either way.
pub proof fn lemma_rounds_to_zero(secs: int)
    ensures
        rounds_to_zero(secs) <==> -60 < secs < 60,
{
    lemma_offset_parts(secs);
}

/// The annotation of an offset that does not round to zero is the same under
/// both display modes, and no annotation that is printed is empty.
pub proof fn lemma_annotation_modes(secs: int)
    ensures
        annotation_text(secs, ZeroOffset::Show) == offset_text(secs),
        !rounds_to_zero(secs) ==> annotation_text(secs, ZeroOffset::Omit) == offset_text(secs),
        rounds_to_zero(secs) ==> annotation_text(secs, ZeroOffset::Omit).len() == 0,
        offset_text(secs).len() >= 3,
        offset_text(secs)[0] == '+' || offset_text(secs)[0] == '-',
{
    let hours = offset_hours(secs);
    let magnitude: nat = if hours < 0 {
        (-hours) as nat
    } else {
        hours as nat
    };
    lemma_decimal_nonempty(magnitude);
}

/// Every number has at least one digit.
pub proof fn lemma_decimal_nonempty(n: nat)
    ensures
        decimal(n).len() >= 1,
    decreases n,
{
    if n >= 10 {
        lemma_decimal_nonempty(n / 10);
    }
}

/// One decimal digit as a string.
fn digit_str(d: u64) -> (digit: &'static str)
    requires
        d < 10,
    ensures
        digit@ == seq![digit_char(d as int)],
{
    proof {
        reveal_strlit("0");
        reveal_strlit("1");
        reveal_strlit("2");
        reveal_strlit("3");
        reveal_strlit("4");
        reveal_strlit("5");
        reveal_strlit("6");
        reveal_strlit("7");
        reveal_strlit("8");
        reveal_strlit("9");
    }
    let digit = if d == 0 {
        "0"
    } else if d == 1 {
        "1"
    } else if d == 2 {
        "2"
    } else if d == 3 {
        "3"
    } else if d == 4 {
        "4"
    } else if d == 5 {
        "5"
    } else if d == 6 {
        "6"
    } else if d == 7 {
        "7"
    } else if d == 8 {
        "8"
    } else {
        "9"
    };
    assert(digit@ =~= seq![digit_char(d as int)]);
    digit
}

/// Writes a number in decimal.
pub fn decimal_string(n: u64) -> (text: String)
    ensures
        text@ == decimal(n as nat),
{
    let mut text = String::from_str(digit_str(n % 10));
    let mut rest = n / 10;
    while rest > 0
        invariant
            rest > 0 ==> decimal(n as nat) == decimal(rest as nat) + text@,
            rest == 0 ==> decimal(n as nat) == text@,
        decreases rest,
    {
        let digit = digit_str(rest % 10);
        proof {
            let r = rest as nat;
            if r < 10 {
                assert(decimal(r) + text@ =~= digit@ + text@);
            } else {
                assert(decimal(r) + text@ =~= decimal(r / 10) + (digit@ + text@));
            }
        }
        text = String::from_str(digit).concat(text.as_str());
        rest = rest / 10;
    }
    text
}

/// Renders the offset of a zone from the local clock, such as `+5h`,
/// `+5h30m` or `-3h`. Seconds short of a minute are dropped, and an offset of
/// less than an hour has `+0h` for its hours whichever way it points.
pub fn format_offset(offset_secs: i64) -> (text: String)
    ensures
        text@ == offset_text(offset_secs as int),
{
    let negative = offset_secs < 0;
    let magnitude: u64 = if negative {
        ((-(offset_secs + 1)) as u64) + 1
    } else {
        offset_secs as u64
    };
    let hours = magnitude / 3600;
    let minutes = (magnitude / 60) % 60;
    let mut text = if negative && hours > 0 {
        String::from_str("-")
    } else {
        String::from_str("+")
    };
    proof {
        reveal_strlit("-");
        reveal_strlit("+");
        reveal_strlit("h");
        reveal_strlit("m");
    }
    let ghost sign = text@;
    text.append(decimal_string(hours).as_str());
    text.append("h");
    if minutes != 0 {
        text.append(decimal_string(minutes).as_str());
        text.append("m");
    }
    proof {
        let secs = offset_secs as int;
        assert(sign + decimal(hours as nat) =~= signed_decimal(offset_hours(secs)));
        assert(text@ =~= offset_text(secs));
    }
    text
}

/// The annotation to print under a display mode: `format_offset`, or nothing
/// where the offset rounds to zero and the mode omits it.
pub fn offset_annotation(offset_secs: i64, mode: ZeroOffset) -> (text: String)
    ensures
        text@ == annotation_text(offset_secs as int, mode),
{
    let omit = match mode {
        ZeroOffset::Omit => true,
        ZeroOffset::Show => false,
    };
    if omit && -60 < offset_secs && offset_secs < 60 {
        proof {
            lemma_rounds_to_zero(offset_secs as int);
        }
        String::new()
    } else {
        proof {
            lemma_rounds_to_zero(offset_secs as int);
        }
        format_offset(offset_secs)
    }
}

} // verus!
