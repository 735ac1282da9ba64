//! Textual rendering of elapsed durations and of the profiler's messages.
//!
//! A duration is rendered from its whole count of nanoseconds, scaled to a
//! natural unit (`s`, `ms`, `us` or `ns`) with the fractional part's trailing
//! zeros trimmed, so `1500000000` nanoseconds render as `1.5s`.

use vstd::prelude::*;
use vstd::string::StringExecFns;

verus! {

/// The character for one decimal digit.
pub open spec fn digit_char(d: nat) -> char {
    if d == 0 {
        '0'
    } else if d == 1 {
        '1'
    } else if d == 2 {
        '2'
    } else if d == 3 {
        '3'
    } else if d == 4 {
        '4'
    } else if d == 5 {
        '5'
    } else if d == 6 {
        '6'
    } else if d == 7 {
        '7'
    } else if d == 8 {
        '8'
    } else {
        '9'
    }
}

/// The decimal rendering of a natural number, without leading zeros.
pub open spec fn decimal_text(n: nat) -> Seq<char>
    decreases n,
{
    if n < 10 {
        seq![digit_char(n)]
    } else {
        decimal_text(n / 10) + seq![digit_char(n % 10)]
    }
}

/// The decimal rendering of a fraction numerator, zero-padded on the left to
/// exactly `width` digits.
pub open spec fn frac_digits(f: nat, width: nat) -> Seq<char>
    decreases width,
{
    if width == 0 {
        Seq::empty()
    } else {
        frac_digits(f / 10, (width - 1) as nat) + seq![digit_char(f % 10)]
    }
}

/// `s` with its trailing `'0'` characters removed.
pub open spec fn trim_zeros(s: Seq<char>) -> Seq<char>
    decreases s.len(),
{
    if s.len() == 0 || s.last() != '0' {
        s
    } else {
        trim_zeros(s.drop_last())
    }
}

/// The fractional part of a scaled rendering: a dot and the fraction's digits
/// with trailing zeros trimmed, or nothing when the fraction is zero.
pub open spec fn frac_part(f: nat, width: nat) -> Seq<char> {
    if f == 0 {
        Seq::empty()
    } else {
        "."@ + trim_zeros(frac_digits(f, width))
    }
}

/// A duration rendered as a whole part, an optional fractional part of
/// `width` digits, and a unit suffix.
pub open spec fn scaled_text(whole: nat, f: nat, width: nat, unit: Seq<char>) -> Seq<char> {
    decimal_text(whole) + frac_part(f, width) + unit
}

/// The rendering of a duration of `nanos` nanoseconds, in its natural unit.
pub open spec fn duration_text(nanos: nat) -> Seq<char> {
    if nanos >= 1000000000 {
        scaled_text(nanos / 1000000000, nanos % 1000000000, 9, "s"@)
    } else if nanos >= 1000000 {
        scaled_text(nanos / 1000000, nanos % 1000000, 6, "ms"@)
    } else if nanos >= 1000 {
        scaled_text(nanos / 1000, nanos % 1000, 3, "us"@)
    } else {
        decimal_text(nanos) + "ns"@
    }
}

/// The default rendering of a profiler whose elapsed time is `nanos`.
pub open spec fn default_text(nanos: nat) -> Seq<char> {
    "Elapsed time: "@ + duration_text(nanos)
}

/// The debug rendering of a profiler whose elapsed time is `nanos`.
pub open spec fn debug_text(nanos: nat) -> Seq<char> {
    "TimeLapse { elapsed: "@ + duration_text(nanos) + " }"@
}

/// The message logged for a profiler under `label` whose elapsed time is
/// `nanos`.
pub open spec fn log_text(label: Seq<char>, nanos: nat) -> Seq<char> {
    "TimeLapse "@ + label + " - "@ + default_text(nanos)
}

fn digit_str(d: u8) -> (s: &'static str)
    requires
        d < 10,
    ensures
        s@ == seq![digit_char(d as nat)],
{
    proof {
        reveal_strlit("0");
        reveal_strlit("1");
        reveal_strlit("2");
        reveal_strlit("3");
        reveal_strlit("4");
        reveal_strlit("5");
        reveal_strlit("6");
        reveal_strlit("7");
        reveal_strlit("8");
        reveal_strlit("9");
    }
    match d {
        0 => "0",
        1 => "1",
        2 => "2",
        3 => "3",
        4 => "4",
        5 => "5",
        6 => "6",
        7 => "7",
        8 => "8",
        _ => "9",
    }
}

/// Renders a number in decimal, without leading zeros.
pub fn format_decimal(n: u128) -> (s: String)
    ensures
        s@ == decimal_text(n as nat),
    decreases n,
{
    if n < 10 {
        digit_str(n as u8).to_owned()
    } else {
        let mut s = format_decimal(n / 10);
        s.append(digit_str((n % 10) as u8));
        s
    }
}

fn format_frac_digits(f: u128, width: u32) -> (s: String)
    ensures
        s@ == frac_digits(f as nat, width as nat),
    decreases width,
{
    if width == 0 {
        String::new()
    } else {
        let mut s = format_frac_digits(f / 10, width - 1);
        s.append(digit_str((f % 10) as u8));
        s
    }
}

fn format_frac_trimmed(f: u128, width: u32) -> (s: String)
    ensures
        s@ == trim_zeros(frac_digits(f as nat, width as nat)),
    decreases width,
{
    if width > 0 && f % 10 == 0 {
        let s = format_frac_trimmed(f / 10, width - 1);
        proof {
            let whole = frac_digits(f as nat, width as nat);
            assert(whole.last() == '0');
            assert(whole.drop_last() =~= frac_digits((f / 10) as nat, (width - 1) as nat));
        }
        s
    } else if width == 0 {
        String::new()
    } else {
        let s = format_frac_digits(f, width);
        proof {
            assert(frac_digits(f as nat, width as nat).last() == digit_char((f % 10) as nat));
            assert(digit_char((f % 10) as nat) != '0');
        }
        s
    }
}

fn format_scaled(whole: u128, f: u128, width: u32, unit: &str) -> (s: String)
    ensures
        s@ == scaled_text(whole as nat, f as nat, width as nat, unit@),
{
    let mut s = format_decimal(whole);
    if f > 0 {
        s.append(".");
        let frac = format_frac_trimmed(f, width);
        s.append(frac.as_str());
    }
    s.append(unit);
    proof {
        assert(s@ =~= scaled_text(whole as nat, f as nat, width as nat, unit@));
    }
    s
}

/// Renders a duration of `nanos` nanoseconds, scaled to its natural unit.
pub fn format_duration(nanos: u128) -> (s: String)
    ensures
        s@ == duration_text(nanos as nat),
{
    if nanos >= 1000000000 {
        format_scaled(nanos / 1000000000, nanos % 1000000000, 9, "s")
    } else if nanos >= 1000000 {
        format_scaled(nanos / 1000000, nanos % 1000000, 6, "ms")
    } else if nanos >= 1000 {
        format_scaled(nanos / 1000, nanos % 1000, 3, "us")
    } else {
        let mut s = format_decimal(nanos);
        s.append("ns");
        s
    }
}

/// Builds the default rendering of an elapsed time of `nanos` nanoseconds.
pub fn default_message(nanos: u128) -> (s: String)
    ensures
        s@ == default_text(nanos as nat),
{
    let mut s = "Elapsed time: ".to_owned();
    let d = format_duration(nanos);
    s.append(d.as_str());
    s
}

/// Builds the debug rendering of an elapsed time of `nanos` nanoseconds.
pub fn debug_message(nanos: u128) -> (s: String)
    ensures
        s@ == debug_text(nanos as nat),
{
    let mut s = "TimeLapse { elapsed: ".to_owned();
    let d = format_duration(nanos);
    s.append(d.as_str());
    s.append(" }");
    proof {
        assert(s@ =~= debug_text(nanos as nat));
    }
    s
}

/// Builds the message logged under `label` for an elapsed time of `nanos`
/// nanoseconds.
pub fn log_message(label: &str, nanos: u128) -> (s: String)
    ensures
        s@ == log_text(label@, nanos as nat),
{
    let mut s = "TimeLapse ".to_owned();
    s.append(label);
    s.append(" - ");
    let tail = default_message(nanos);
    s.append(tail.as_str());
    proof {
        assert(s@ =~= log_text(label@, nanos as nat));
    }
    s
}

/// Law: the default and the debug rendering are textually distinct, whatever
/// elapsed time each was rendered from.
pub proof fn lemma_renderings_distinct(a: nat, b: nat)
    ensures
        default_text(a) != debug_text(b),
{
    reveal_strlit("Elapsed time: ");
    reveal_strlit("TimeLapse { elapsed: ");
    assert(default_text(a)[0] == 'E');
    assert(debug_text(b)[0] == 'T');
}

/// Law: each rendering embeds the rendering of the elapsed duration itself:
/// the default rendering ends with it, and the debug rendering carries it
/// between its braces.
pub proof fn lemma_renderings_embed_duration(n: nat)
    ensures
        default_text(n).len() == 14 + duration_text(n).len(),
        default_text(n).subrange(14, default_text(n).len() as int) == duration_text(n),
        debug_text(n).len() == 23 + duration_text(n).len(),
        debug_text(n).subrange(21, 21 + duration_text(n).len() as int) == duration_text(n),
{
    reveal_strlit("Elapsed time: ");
    reveal_strlit("TimeLapse { elapsed: ");
    reveal_strlit(" }");
    assert(default_text(n).subrange(14, default_text(n).len() as int) =~= duration_text(n));
    assert(debug_text(n).subrange(21, 21 + duration_text(n).len() as int) =~= duration_text(n));
}

/// Law: a logged message carries its label verbatim and ends with the default
/// rendering of the elapsed duration.
pub proof fn lemma_log_text_parts(label: Seq<char>, n: nat)
    ensures
        log_text(label, n).len() == 13 + label.len() + default_text(n).len(),
        log_text(label, n).subrange(10, 10 + label.len() as int) == label,
        log_text(label, n).subrange(
            13 + label.len() as int,
            log_text(label, n).len() as int,
        ) == default_text(n),
{
    reveal_strlit("TimeLapse ");
    reveal_strlit(" - ");
    assert(log_text(label, n).subrange(10, 10 + label.len() as int) =~= label);
    assert(log_text(label, n).subrange(
        13 + label.len() as int,
        log_text(label, n).len() as int,
    ) =~= default_text(n));
}

} // verus!
