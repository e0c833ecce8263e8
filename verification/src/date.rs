//! Calendar dates and clock times as plain numbers, and the fixed-width
//! texts that name a day's log file and stamp an entry.

use crate::text::{push_all, string_from};
use vstd::prelude::*;

verus! {

/// A calendar date, as year, month and day of the month.
#[derive(Clone, Copy, Debug, PartialEq, Eq, Structural)]
pub struct Date {
    pub year: i32,
    pub month: u32,
    pub day: u32,
}

/// A time of day, to the minute.
#[derive(Clone, Copy, Debug, PartialEq, Eq, Structural)]
pub struct ClockTime {
    pub hour: u32,
    pub minute: u32,
}

/// A day of the week.
#[derive(Clone, Copy, Debug, PartialEq, Eq, Structural)]
pub enum Weekday {
    Mon,
    Tue,
    Wed,
    Thu,
    Fri,
    Sat,
    Sun,
}

/// The character for the decimal digit `d`.
pub open spec fn digit(d: int) -> char {
    if d == 0 {
        '0'
    } else if d == 1 {
        '1'
    } else if d == 2 {
        '2'
    } else if d == 3 {
        '3'
    } else if d == 4 {
        '4'
    } else if d == 5 {
        '5'
    } else if d == 6 {
        '6'
    } else if d == 7 {
        '7'
    } else if d == 8 {
        '8'
    } else {
        '9'
    }
}

/// `n` in decimal, without leading zeros.
pub open spec fn decimal(n: nat) -> Seq<char>
    decreases n,
{
    if n < 10 {
        seq![digit(n as int)]
    } else {
        decimal(n / 10).push(digit((n % 10) as int))
    }
}

/// `n` in decimal, with zeros in front up to `width` digits.
pub open spec fn zero_padded(n: nat, width: nat) -> Seq<char> {
    let digits = decimal(n);
    if digits.len() >= width {
        digits
    } else {
        Seq::new((width - digits.len()) as nat, |i: int| '0') + digits
    }
}

/// The year `y` as text: four digits from 0 to 9999, and a sign before at
/// least four digits for any other year.
pub open spec fn year_text(y: int) -> Seq<char> {
    if 0 <= y <= 9999 {
        zero_padded(y as nat, 4)
    } else if y < 0 {
        seq!['-'] + zero_padded((-y) as nat, 4)
    } else {
        seq!['+'] + zero_padded(y as nat, 4)
    }
}

/// The date as `YYYY-MM-DD`.
pub open spec fn date_text(d: Date) -> Seq<char> {
    year_text(d.year as int) + seq!['-'] + zero_padded(d.month as nat, 2) + seq!['-']
        + zero_padded(d.day as nat, 2)
}

/// The time as `HH:MM`, on the 24-hour clock.
pub open spec fn clock_text(t: ClockTime) -> Seq<char> {
    zero_padded(t.hour as nat, 2) + seq![':'] + zero_padded(t.minute as nat, 2)
}

fn digit_char(d: u32) -> (c: char)
    requires
        d < 10,
    ensures
        c == digit(d as int),
{
    if d == 0 {
        '0'
    } else if d == 1 {
        '1'
    } else if d == 2 {
        '2'
    } else if d == 3 {
        '3'
    } else if d == 4 {
        '4'
    } else if d == 5 {
        '5'
    } else if d == 6 {
        '6'
    } else if d == 7 {
        '7'
    } else if d == 8 {
        '8'
    } else {
        '9'
    }
}

/// Appends `n` in decimal to `out`.
fn push_decimal(out: &mut Vec<char>, n: u32)
    ensures
        final(out)@ == old(out)@ + decimal(n as nat),
    decreases n,
{
    if n < 10 {
        out.push(digit_char(n));
    } else {
        push_decimal(out, n / 10);
        out.push(digit_char(n % 10));
    }
    proof {
        if n < 10 {
            assert(out@ =~= old(out)@ + decimal(n as nat));
        } else {
            assert(out@ =~= old(out)@ + decimal(n as nat));
        }
    }
}

/// Appends `n` in decimal to `out`, with zeros in front up to `width` digits.
fn push_zero_padded(out: &mut Vec<char>, n: u32, width: usize)
    ensures
        final(out)@ == old(out)@ + zero_padded(n as nat, width as nat),
{
    let mut digits: Vec<char> = Vec::new();
    push_decimal(&mut digits, n);
    let len = digits.len();
    let ghost start = out@;
    let mut k: usize = len;
    proof {
        assert(start + Seq::new(0, |i: int| '0') =~= start);
    }
    while k < width
        invariant
            len <= k,
            k == len || k <= width,
            out@ == start + Seq::new((k - len) as nat, |i: int| '0'),
        decreases width - k,
    {
        out.push('0');
        proof {
            assert(out@ =~= start + Seq::new((k + 1 - len) as nat, |i: int| '0'));
        }
        k += 1;
    }
    push_all(out, &digits);
    proof {
        assert(digits@ =~= decimal(n as nat));
        assert(out@ =~= start + zero_padded(n as nat, width as nat));
    }
}

/// The characters of the date as `YYYY-MM-DD`.
pub fn date_chars(date: Date) -> (s: Vec<char>)
    ensures
        s@ == date_text(date),
{
    let mut out: Vec<char> = Vec::new();
    if 0 <= date.year && date.year <= 9999 {
        push_zero_padded(&mut out, date.year as u32, 4);
    } else if date.year < 0 {
        out.push('-');
        push_zero_padded(&mut out, (-(date.year as i64)) as u32, 4);
    } else {
        out.push('+');
        push_zero_padded(&mut out, date.year as u32, 4);
    }
    proof {
        assert(out@ =~= year_text(date.year as int));
    }
    out.push('-');
    push_zero_padded(&mut out, date.month, 2);
    out.push('-');
    push_zero_padded(&mut out, date.day, 2);
    proof {
        assert(out@ =~= date_text(date));
    }
    out
}

/// The characters of the time as `HH:MM`.
pub fn clock_chars(time: ClockTime) -> (s: Vec<char>)
    ensures
        s@ == clock_text(time),
{
    let mut out: Vec<char> = Vec::new();
    push_zero_padded(&mut out, time.hour, 2);
    out.push(':');
    push_zero_padded(&mut out, time.minute, 2);
    proof {
        assert(out@ =~= clock_text(time));
    }
    out
}

/// The date as `YYYY-MM-DD`. Years outside 0 to 9999 carry a sign, as in
/// `+12345-01-01` and `-0044-03-15`.
pub fn format_date(date: Date) -> (s: String)
    ensures
        s@ == date_text(date),
{
    string_from(&date_chars(date))
}

/// The time as `HH:MM`, on the 24-hour clock.
pub fn format_clock(time: ClockTime) -> (s: String)
    ensures
        s@ == clock_text(time),
{
    string_from(&clock_chars(time))
}

/// Whether `c` is a decimal digit.
pub open spec fn is_digit(c: char) -> bool {
    c == '0' || c == '1' || c == '2' || c == '3' || c == '4' || c == '5' || c == '6' || c == '7'
        || c == '8' || c == '9'
}

/// A number in decimal is made of digits, and of at least one.
pub proof fn lemma_decimal_is_digits(n: nat)
    ensures
        decimal(n).len() >= 1,
        forall|k: int| 0 <= k < decimal(n).len() ==> is_digit(#[trigger] decimal(n)[k]),
    decreases n,
{
    if n >= 10 {
        lemma_decimal_is_digits(n / 10);
    }
}

/// A zero-padded number is made of digits, and of at least as many as the
/// width asks for.
pub proof fn lemma_zero_padded_is_digits(n: nat, width: nat)
    ensures
        zero_padded(n, width).len() >= width,
        zero_padded(n, width).len() >= 1,
        forall|k: int|
            0 <= k < zero_padded(n, width).len() ==> is_digit(#[trigger] zero_padded(n, width)[k]),
{
    lemma_decimal_is_digits(n);
}

/// The text of a time of day is made of digits and one colon.
pub proof fn lemma_clock_text_chars(t: ClockTime)
    ensures
        clock_text(t).len() >= 5,
        forall|k: int|
            0 <= k < clock_text(t).len() ==> is_digit(#[trigger] clock_text(t)[k]) || clock_text(
                t,
            )[k] == ':',
        is_digit(clock_text(t)[0]),
{
    lemma_zero_padded_is_digits(t.hour as nat, 2);
    lemma_zero_padded_is_digits(t.minute as nat, 2);
}

} // verus!
