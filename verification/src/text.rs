//! Building blocks for text output: decimal numbers and clock times.

use crate::clock::{jst_second_of_day, second_of_day_jst};
use vstd::prelude::*;

verus! {

/// `String::push` puts one character at the end of the text.
pub assume_specification[ String::push ](s: &mut String, c: char)
    ensures
        final(s)@ == old(s)@.push(c),
;

/// The character that shows a single digit.
pub open spec fn digit_char(d: int) -> char
    recommends
        0 <= d <= 9,
{
    if d == 0 {
        '0'
    } else if d == 1 {
        '1'
    } else if d == 2 {
        '2'
    } else if d == 3 {
        '3'
    } else if d == 4 {
        '4'
    } else if d == 5 {
        '5'
    } else if d == 6 {
        '6'
    } else if d == 7 {
        '7'
    } else if d == 8 {
        '8'
    } else {
        '9'
    }
}

fn char_of_digit(d: u64) -> (c: char)
    requires
        d <= 9,
    ensures
        c == digit_char(d as int),
{
    if d == 0 {
        '0'
    } else if d == 1 {
        '1'
    } else if d == 2 {
        '2'
    } else if d == 3 {
        '3'
    } else if d == 4 {
        '4'
    } else if d == 5 {
        '5'
    } else if d == 6 {
        '6'
    } else if d == 7 {
        '7'
    } else if d == 8 {
        '8'
    } else {
        '9'
    }
}

/// A number in decimal notation, without leading zeros.
pub open spec fn decimal(n: nat) -> Seq<char>
    decreases n,
{
    if n < 10 {
        seq![digit_char(n as int)]
    } else {
        decimal(n / 10).push(digit_char((n % 10) as int))
    }
}

/// A number below one hundred in two digits.
pub open spec fn two_digits(n: nat) -> Seq<char>
    recommends
        n < 100,
{
    seq![digit_char((n / 10) as int), digit_char((n % 10) as int)]
}

/// Tenths as a number with one decimal place: `59` reads `5.9`.
pub open spec fn one_decimal(tenths: nat) -> Seq<char> {
    decimal(tenths / 10).push('.').push(digit_char((tenths % 10) as int))
}

/// A clock time as `hh:mm:ss`.
pub open spec fn clock_text(second_of_day: nat) -> Seq<char>
    recommends
        second_of_day < 86400,
{
    two_digits(second_of_day / 3600).push(':') + two_digits((second_of_day % 3600) / 60).push(':')
        + two_digits(second_of_day % 60)
}

pub fn push_decimal(out: &mut String, n: u64)
    ensures
        final(out)@ == old(out)@ + decimal(n as nat),
    decreases n,
{
    if n >= 10 {
        push_decimal(out, n / 10);
    }
    out.push(char_of_digit(n % 10));
    proof {
        if n >= 10 {
            assert(out@ =~= old(out)@ + decimal(n as nat));
        } else {
            assert(out@ =~= old(out)@ + decimal(n as nat));
        }
    }
}

pub fn push_two_digits(out: &mut String, n: u64)
    requires
        n < 100,
    ensures
        final(out)@ == old(out)@ + two_digits(n as nat),
{
    out.push(char_of_digit(n / 10));
    out.push(char_of_digit(n % 10));
    assert(out@ =~= old(out)@ + two_digits(n as nat));
}

pub fn push_one_decimal(out: &mut String, tenths: u64)
    ensures
        final(out)@ == old(out)@ + one_decimal(tenths as nat),
{
    push_decimal(out, tenths / 10);
    out.push('.');
    out.push(char_of_digit(tenths % 10));
    assert(out@ =~= old(out)@ + one_decimal(tenths as nat));
}

/// Appends the time of day, in Japan Standard Time, of the instant `t`.
pub fn push_clock_jst(out: &mut String, t: i64)
    ensures
        final(out)@ == old(out)@ + clock_text(jst_second_of_day(t) as nat),
{
    let s: u64 = second_of_day_jst(t) as u64;
    push_two_digits(out, s / 3600);
    out.push(':');
    push_two_digits(out, (s % 3600) / 60);
    out.push(':');
    push_two_digits(out, s % 60);
    assert(out@ =~= old(out)@ + clock_text(jst_second_of_day(t) as nat));
}

} // verus!
