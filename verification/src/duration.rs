//! Spans of time and how they read in a prompt.
//!
//! A [`Duration`] is a number of nanoseconds. [`format_duration`] writes it in
//! the largest unit that keeps the number short: `42ns`, `420µs`, `230ms`,
//! `42.23s`, `7:02min`, `11:43:50h`.

use vstd::prelude::*;
use vstd::string::*;
use crate::decimal::{
    decimal, is_digit, is_numeral, lemma_decimal_is_numeral, push_decimal, push_two_digits,
    two_digits,
};
use crate::single::{
    hundredths, lemma_single_hundredths_is_close, single_hundredths, NANOS_PER_SEC,
};

verus! {

/// A span of time, to the nanosecond.
#[derive(Clone, Copy, Debug, PartialEq, Eq, Structural)]
pub struct Duration {
    secs: u64,
    nanos: u32,
}

impl View for Duration {
    type V = nat;

    /// The span in nanoseconds.
    closed spec fn view(&self) -> nat {
        self.secs as nat * NANOS_PER_SEC as nat + self.nanos as nat
    }
}

impl Duration {
    /// The nanoseconds beyond the whole seconds stay below one second.
    #[verifier::type_invariant]
    closed spec fn well_formed(self) -> bool {
        self.nanos < NANOS_PER_SEC
    }

    /// The span of `secs` whole seconds.
    pub fn from_secs(secs: u64) -> (d: Duration)
        ensures
            d@ == secs as nat * 1_000_000_000,
    {
        Duration { secs, nanos: 0 }
    }

    /// The span of `millis` milliseconds.
    pub fn from_millis(millis: u64) -> (d: Duration)
        ensures
            d@ == millis as nat * 1_000_000,
    {
        let secs: u64 = millis / 1_000;
        let rest: u64 = millis % 1_000;
        Duration { secs, nanos: (rest * 1_000_000) as u32 }
    }

    /// The span of `micros` microseconds.
    pub fn from_micros(micros: u64) -> (d: Duration)
        ensures
            d@ == micros as nat * 1_000,
    {
        let secs: u64 = micros / 1_000_000;
        let rest: u64 = micros % 1_000_000;
        Duration { secs, nanos: (rest * 1_000) as u32 }
    }

    /// The span of `nanos` nanoseconds.
    pub fn from_nanos(nanos: u64) -> (d: Duration)
        ensures
            d@ == nanos as nat,
    {
        let secs: u64 = nanos / NANOS_PER_SEC;
        let rest: u64 = nanos % NANOS_PER_SEC;
        Duration { secs, nanos: rest as u32 }
    }

    /// The whole seconds of the span.
    pub fn as_secs(&self) -> (secs: u64)
        ensures
            secs as nat == self@ / 1_000_000_000,
    {
        proof {
            use_type_invariant(self);
        }
        self.secs
    }

    /// The nanoseconds of the span beyond its whole seconds.
    pub fn subsec_nanos(&self) -> (nanos: u32)
        ensures
            nanos as nat == self@ % 1_000_000_000,
    {
        proof {
            use_type_invariant(self);
        }
        self.nanos
    }
}

/// The units a span can be written in, from the finest to the coarsest.
#[derive(Clone, Copy, Debug, PartialEq, Eq, Structural)]
pub enum Unit {
    Nanoseconds,
    Microseconds,
    Milliseconds,
    Seconds,
    Minutes,
    Hours,
}

/// The unit that a span of `nanos` nanoseconds is written in: the first whose
/// count stays under a thousand of itself, under two minutes for seconds and
/// under two hours for minutes.
pub open spec fn unit_of(nanos: nat) -> Unit {
    if nanos < 1_000 {
        Unit::Nanoseconds
    } else if nanos / 1_000 < 1_000 {
        Unit::Microseconds
    } else if nanos / 1_000_000 < 1_000 {
        Unit::Milliseconds
    } else if nanos / 1_000_000_000 < 120 {
        Unit::Seconds
    } else if nanos / 1_000_000_000 < 7_200 {
        Unit::Minutes
    } else {
        Unit::Hours
    }
}

/// The letters that close a span written in `unit`.
pub open spec fn unit_mark(unit: Unit) -> Seq<char> {
    match unit {
        Unit::Nanoseconds => seq!['n', 's'],
        Unit::Microseconds => seq!['\u{b5}', 's'],
        Unit::Milliseconds => seq!['m', 's'],
        Unit::Seconds => seq!['s'],
        Unit::Minutes => seq!['m', 'i', 'n'],
        Unit::Hours => seq!['h'],
    }
}

/// The hundredths of a second that a span of `nanos` nanoseconds is shown
/// with when it is written in seconds: the hundredth nearest to the span as
/// single precision has it.
pub open spec fn seconds_shown(nanos: nat) -> nat {
    single_hundredths(nanos / 1_000_000_000, nanos % 1_000_000_000)
}

/// The number part of a span of `nanos` nanoseconds, in its unit.
///
/// Nanoseconds, microseconds and milliseconds are whole counts, cut off and
/// never rounded. Seconds go through single precision and show the nearest
/// hundredth. Minutes and hours count whole seconds, with every part but the first
/// on two digits.
pub open spec fn duration_number(nanos: nat) -> Seq<char> {
    let secs = nanos / 1_000_000_000;
    match unit_of(nanos) {
        Unit::Nanoseconds => decimal(nanos),
        Unit::Microseconds => decimal(nanos / 1_000),
        Unit::Milliseconds => decimal(nanos / 1_000_000),
        Unit::Seconds => decimal(seconds_shown(nanos) / 100) + seq!['.'] + two_digits(
            seconds_shown(nanos) % 100,
        ),
        Unit::Minutes => decimal(secs / 60) + seq![':'] + two_digits(secs % 60),
        Unit::Hours => decimal(secs / 3_600) + seq![':'] + two_digits(secs / 60 % 60) + seq![':']
            + two_digits(secs % 60),
    }
}

/// How a span of `nanos` nanoseconds reads: its number, then the mark of its unit.
pub open spec fn duration_text(nanos: nat) -> Seq<char> {
    duration_number(nanos) + unit_mark(unit_of(nanos))
}

/// Writes `duration` in the unit that suits its length.
pub fn format_duration(duration: Duration) -> (text: String)
    ensures
        text@ == duration_text(duration@),
{
    proof {
        use_type_invariant(&duration);
        reveal_strlit("ns");
        reveal_strlit("\u{b5}s");
        reveal_strlit("ms");
        reveal_strlit("s");
        reveal_strlit("min");
        reveal_strlit("h");
        reveal_strlit(".");
        reveal_strlit(":");
    }
    let secs: u64 = duration.secs;
    let nanos: u64 = duration.nanos as u64;
    let mut text = String::new();
    if secs == 0 && nanos < 1_000 {
        push_decimal(&mut text, nanos);
        text.append("ns");
    } else if secs == 0 && nanos < 1_000_000 {
        push_decimal(&mut text, nanos / 1_000);
        text.append("\u{b5}s");
    } else if secs == 0 {
        push_decimal(&mut text, nanos / 1_000_000);
        text.append("ms");
    } else if secs < 120 {
        let c: u64 = hundredths(secs, duration.nanos);
        push_decimal(&mut text, c / 100);
        text.append(".");
        push_two_digits(&mut text, c % 100);
        text.append("s");
    } else if secs < 7_200 {
        push_decimal(&mut text, secs / 60);
        text.append(":");
        push_two_digits(&mut text, secs % 60);
        text.append("min");
    } else {
        push_decimal(&mut text, secs / 3_600);
        text.append(":");
        push_two_digits(&mut text, secs / 60 % 60);
        text.append(":");
        push_two_digits(&mut text, secs % 60);
        text.append("h");
    }
    assert(text@ =~= duration_text(duration@));
    text
}

/// How many characters follow the leading numeral of a span written in `unit`.
pub open spec fn tail_len(unit: Unit) -> nat {
    match unit {
        Unit::Nanoseconds => 2,
        Unit::Microseconds => 2,
        Unit::Milliseconds => 2,
        Unit::Seconds => 4,
        Unit::Minutes => 6,
        Unit::Hours => 7,
    }
}

/// Whether `tail` is what follows the leading numeral of a span written in
/// `unit`: `ns`, `µs`, `ms`, `.dds`, `:ddmin` or `:dd:ddh`, each `d` a digit.
pub open spec fn tail_has_form(tail: Seq<char>, unit: Unit) -> bool {
    &&& tail.len() == tail_len(unit)
    &&& match unit {
        Unit::Nanoseconds => tail[0] == 'n' && tail[1] == 's',
        Unit::Microseconds => tail[0] == '\u{b5}' && tail[1] == 's',
        Unit::Milliseconds => tail[0] == 'm' && tail[1] == 's',
        Unit::Seconds => tail[0] == '.' && is_digit(tail[1]) && is_digit(tail[2]) && tail[3]
            == 's',
        Unit::Minutes => tail[0] == ':' && is_digit(tail[1]) && is_digit(tail[2]) && tail[3]
            == 'm' && tail[4] == 'i' && tail[5] == 'n',
        Unit::Hours => tail[0] == ':' && is_digit(tail[1]) && is_digit(tail[2]) && tail[3]
            == ':' && is_digit(tail[4]) && is_digit(tail[5]) && tail[6] == 'h',
    }
}

/// Whether `text` has the form of a span written in `unit`: a numeral, then the
/// tail of that unit.
pub open spec fn has_form(text: Seq<char>, unit: Unit) -> bool {
    let lead = text.len() - tail_len(unit);
    &&& lead >= 1
    &&& is_numeral(text.subrange(0, lead))
    &&& tail_has_form(text.subrange(lead, text.len() as int), unit)
}

/// A numeral followed by a tail of the form of `unit` has that form and no other.
proof fn lemma_form_of_parts(numeral: Seq<char>, tail: Seq<char>, unit: Unit)
    requires
        is_numeral(numeral),
        tail_has_form(tail, unit),
    ensures
        has_form(numeral + tail, unit),
        forall|other: Unit| has_form(numeral + tail, other) ==> other == unit,
{
    let text = numeral + tail;
    let lead = numeral.len() as int;
    assert(text.subrange(0, lead) =~= numeral);
    assert(text.subrange(lead, text.len() as int) =~= tail);
    assert forall|other: Unit| has_form(text, other) implies other == unit by {
        let cut = text.len() - tail_len(other);
        let end = text.subrange(cut, text.len() as int);
        let last = text.len() - 1;
        // The last characters of `text` are those of `tail`, and tell the units apart.
        assert(end[tail_len(other) - 1] == text[last]);
        assert(text[last] == tail[tail_len(unit) - 1]);
        assert(end[tail_len(other) - 2] == text[last - 1]);
        assert(text[last - 1] == tail[tail_len(unit) - 2]);
    }
}

/// Every span is written in exactly one of the six forms: that of its unit.
pub proof fn lemma_duration_text_has_one_form(nanos: nat)
    ensures
        has_form(duration_text(nanos), unit_of(nanos)),
        forall|unit: Unit| has_form(duration_text(nanos), unit) ==> unit == unit_of(nanos),
{
    let secs = nanos / 1_000_000_000;
    let unit = unit_of(nanos);
    let mark = unit_mark(unit);
    match unit {
        Unit::Nanoseconds => {
            lemma_decimal_is_numeral(nanos);
            lemma_form_of_parts(decimal(nanos), mark, unit);
        },
        Unit::Microseconds => {
            lemma_decimal_is_numeral(nanos / 1_000);
            lemma_form_of_parts(decimal(nanos / 1_000), mark, unit);
        },
        Unit::Milliseconds => {
            lemma_decimal_is_numeral(nanos / 1_000_000);
            lemma_form_of_parts(decimal(nanos / 1_000_000), mark, unit);
        },
        Unit::Seconds => {
            let hundredths = seconds_shown(nanos);
            let numeral = decimal(hundredths / 100);
            let tail = seq!['.'] + two_digits(hundredths % 100) + mark;
            lemma_decimal_is_numeral(hundredths / 100);
            lemma_form_of_parts(numeral, tail, unit);
            assert(duration_text(nanos) =~= numeral + tail);
        },
        Unit::Minutes => {
            let numeral = decimal(secs / 60);
            let tail = seq![':'] + two_digits(secs % 60) + mark;
            lemma_decimal_is_numeral(secs / 60);
            lemma_form_of_parts(numeral, tail, unit);
            assert(duration_text(nanos) =~= numeral + tail);
        },
        Unit::Hours => {
            let numeral = decimal(secs / 3_600);
            let tail = seq![':'] + two_digits(secs / 60 % 60) + seq![':'] + two_digits(secs % 60)
                + mark;
            lemma_decimal_is_numeral(secs / 3_600);
            lemma_form_of_parts(numeral, tail, unit);
            assert(duration_text(nanos) =~= numeral + tail);
        },
    }
}

/// A span that is written in seconds shows its hundredths of a second, cut
/// off, or one more: single precision never leads further away.
pub proof fn lemma_seconds_shown_are_close(nanos: nat)
    requires
        unit_of(nanos) == Unit::Seconds,
    ensures
        nanos / 10_000_000 <= seconds_shown(nanos) <= nanos / 10_000_000 + 1,
        duration_number(nanos) == decimal(seconds_shown(nanos) / 100) + seq!['.'] + two_digits(
            seconds_shown(nanos) % 100,
        ),
{
    lemma_single_hundredths_is_close(nanos / 1_000_000_000, nanos % 1_000_000_000);
}

/// Whether `c` can stand in a span that is written out: a digit, the point of
/// the seconds, the colon of minutes and hours, or a letter of a unit.
pub open spec fn is_duration_char(c: char) -> bool {
    is_digit(c) || c == '.' || c == ':' || c == 'n' || c == 's' || c == '\u{b5}' || c == 'm' || c
        == 'i' || c == 'h'
}

/// A span that is written out holds digits, points, colons and the letters of
/// the units, and nothing else.
pub proof fn lemma_duration_text_chars(nanos: nat)
    ensures
        forall|k: int|
            0 <= k < duration_text(nanos).len() ==> is_duration_char(
                #[trigger] duration_text(nanos)[k],
            ),
{
    let secs = nanos / 1_000_000_000;
    let hundredths = seconds_shown(nanos);
    lemma_decimal_is_numeral(nanos);
    lemma_decimal_is_numeral(nanos / 1_000);
    lemma_decimal_is_numeral(nanos / 1_000_000);
    lemma_decimal_is_numeral(hundredths / 100);
    lemma_decimal_is_numeral(secs / 60);
    lemma_decimal_is_numeral(secs / 3_600);
}

} // verus!
