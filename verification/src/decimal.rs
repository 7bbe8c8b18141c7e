//! Decimal rendering of the fixed-point quantities the player works with:
//! times in milliseconds and volume levels in ten-thousandths of full scale.

use vstd::prelude::*;

use crate::text::push_char;

verus! {

/// The character of a decimal digit.
pub open spec fn digit(d: nat) -> char {
    if d == 0 {
        '0'
    } else if d == 1 {
        '1'
    } else if d == 2 {
        '2'
    } else if d == 3 {
        '3'
    } else if d == 4 {
        '4'
    } else if d == 5 {
        '5'
    } else if d == 6 {
        '6'
    } else if d == 7 {
        '7'
    } else if d == 8 {
        '8'
    } else {
        '9'
    }
}

/// The decimal digits of `n`, most significant first, without leading zeros.
pub open spec fn decimal(n: nat) -> Seq<char>
    decreases n,
{
    if n < 10 {
        seq![digit(n)]
    } else {
        decimal(n / 10).push(digit(n % 10))
    }
}

/// A time of `ms` milliseconds written in seconds with two decimals, rounded
/// to the nearest hundredth and upwards from the half.
pub open spec fn seconds_text(ms: nat) -> Seq<char> {
    let hundredths = (ms + 5) / 10;
    decimal(hundredths / 100) + seq!['.', digit(hundredths % 100 / 10), digit(hundredths % 10)]
}

/// The digits that follow the decimal point for `part`, whose leading digit
/// has the place value `unit`; trailing zeros are left out.
pub open spec fn fraction(part: nat, unit: nat) -> Seq<char>
    decreases unit,
{
    if part == 0 || unit == 0 {
        Seq::empty()
    } else {
        seq![digit(part / unit)] + fraction(part % unit, unit / 10)
    }
}

/// A level given in ten-thousandths, written as the shortest decimal
/// fraction: `0`, `0.5`, `0.0625`, `1`.
pub open spec fn level_text(level: nat) -> Seq<char> {
    if level % 10000 == 0 {
        decimal(level / 10000)
    } else {
        decimal(level / 10000) + seq!['.'] + fraction(level % 10000, 1000)
    }
}

fn digit_char(d: u64) -> (c: char)
    requires
        d < 10,
    ensures
        c == digit(d as nat),
{
    if d == 0 {
        '0'
    } else if d == 1 {
        '1'
    } else if d == 2 {
        '2'
    } else if d == 3 {
        '3'
    } else if d == 4 {
        '4'
    } else if d == 5 {
        '5'
    } else if d == 6 {
        '6'
    } else if d == 7 {
        '7'
    } else if d == 8 {
        '8'
    } else {
        '9'
    }
}

/// Appends the decimal digits of `n` to `out`.
pub fn push_decimal(out: &mut String, n: u64)
    ensures
        final(out)@ == old(out)@ + decimal(n as nat),
    decreases n,
{
    if n < 10 {
        push_char(out, digit_char(n));
        assert(out@ =~= old(out)@ + decimal(n as nat));
    } else {
        push_decimal(out, n / 10);
        push_char(out, digit_char(n % 10));
        assert(out@ =~= old(out)@ + decimal(n as nat));
    }
}

/// Appends `ms` milliseconds to `out` as seconds with two decimals.
pub fn push_seconds(out: &mut String, ms: u64)
    ensures
        final(out)@ == old(out)@ + seconds_text(ms as nat),
{
    let whole: u64 = ms / 1000;
    let rest: u64 = ms % 1000;
    let rounded: u64 = (rest + 5) / 10;
    let seconds: u64 = if rounded == 100 {
        whole + 1
    } else {
        whole
    };
    let hundredths: u64 = if rounded == 100 {
        0
    } else {
        rounded
    };
    proof {
        let exact: nat = ((ms as nat) + 5) / 10;
        assert(exact / 100 == seconds as nat);
        assert(exact % 100 == hundredths as nat);
        assert(exact % 10 == hundredths as nat % 10);
    }
    push_decimal(out, seconds);
    push_char(out, '.');
    push_char(out, digit_char(hundredths / 10));
    push_char(out, digit_char(hundredths % 10));
    assert(out@ =~= old(out)@ + seconds_text(ms as nat));
}

fn push_fraction(out: &mut String, part: u64, unit: u64)
    requires
        unit == 1000 || unit == 100 || unit == 10 || unit == 1 || unit == 0,
        unit == 0 ==> part == 0,
        unit > 0 ==> part < unit * 10,
    ensures
        final(out)@ == old(out)@ + fraction(part as nat, unit as nat),
    decreases unit,
{
    if part == 0 || unit == 0 {
        assert(out@ =~= old(out)@ + fraction(part as nat, unit as nat));
    } else {
        push_char(out, digit_char(part / unit));
        push_fraction(out, part % unit, unit / 10);
        assert(out@ =~= old(out)@ + fraction(part as nat, unit as nat));
    }
}

/// Appends a level in ten-thousandths to `out` as the shortest decimal
/// fraction.
pub fn push_level(out: &mut String, level: u32)
    ensures
        final(out)@ == old(out)@ + level_text(level as nat),
{
    let whole: u64 = (level / 10000) as u64;
    let part: u64 = (level % 10000) as u64;
    push_decimal(out, whole);
    if part != 0 {
        push_char(out, '.');
        push_fraction(out, part, 1000);
    }
    assert(out@ =~= old(out)@ + level_text(level as nat));
}

} // verus!
