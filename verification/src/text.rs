//! Decimal text for the numbers that appear in messages and command lines.

use vstd::prelude::*;
use vstd::string::*;

verus! {

/// The text of an optional string.
pub open spec fn text_of(value: Option<String>) -> Option<Seq<char>> {
    match value {
        Some(text) => Some(text@),
        None => None,
    }
}

/// The texts of a list of strings.
pub open spec fn texts_of(strings: Seq<String>) -> Seq<Seq<char>> {
    Seq::new(strings.len(), |i: int| strings[i]@)
}

/// The character of a single decimal digit.
pub open spec fn digit_char(d: nat) -> char {
    if d == 0 {
        '0'
    } else if d == 1 {
        '1'
    } else if d == 2 {
        '2'
    } else if d == 3 {
        '3'
    } else if d == 4 {
        '4'
    } else if d == 5 {
        '5'
    } else if d == 6 {
        '6'
    } else if d == 7 {
        '7'
    } else if d == 8 {
        '8'
    } else {
        '9'
    }
}

/// The decimal digits of `n`, most significant first, without leading zeros.
pub open spec fn decimal(n: nat) -> Seq<char>
    decreases n,
{
    if n < 10 {
        seq![digit_char(n)]
    } else {
        decimal(n / 10).push(digit_char(n % 10))
    }
}

/// The digits of a fraction with `places` decimal places, `frac` being its
/// numerator over ten to the power `places`: zeros on the left are written,
/// zeros on the right are not. Empty when `frac` is zero.
pub open spec fn fraction_digits(frac: nat, places: nat) -> Seq<char>
    decreases places,
{
    if frac == 0 || places == 0 {
        Seq::empty()
    } else {
        let unit = pow10(( places - 1 ) as nat);
        seq![digit_char(( frac / unit ) as nat)] + fraction_digits(( frac % unit ) as nat, ( places - 1 ) as nat)
    }
}

/// Ten to the power `e`.
pub open spec fn pow10(e: nat) -> nat
    decreases e,
{
    if e == 0 {
        1
    } else {
        10 * pow10(( e - 1 ) as nat)
    }
}

/// A time in microseconds written as seconds: an optional minus sign, the whole
/// seconds, and, where the time is not a whole number of seconds, a point and
/// the fraction without trailing zeros.
pub open spec fn seconds_text(micros: int) -> Seq<char> {
    let magnitude = if micros < 0 { ( -micros ) as nat } else { micros as nat };
    let sign = if micros < 0 { seq!['-'] } else { Seq::<char>::empty() };
    let whole = decimal(magnitude / 1_000_000);
    let frac = magnitude % 1_000_000;
    if frac == 0 {
        sign + whole
    } else {
        sign + whole + seq!['.'] + fraction_digits(frac, 6)
    }
}

/// The one-character text of a decimal digit.
fn digit_text(d: u64) -> (text: &'static str)
    requires
        d < 10,
    ensures
        text@ == seq![digit_char(d as nat)],
{
    proof {
        reveal_strlit("0");
        reveal_strlit("1");
        reveal_strlit("2");
        reveal_strlit("3");
        reveal_strlit("4");
        reveal_strlit("5");
        reveal_strlit("6");
        reveal_strlit("7");
        reveal_strlit("8");
        reveal_strlit("9");
    }
    if d == 0 {
        "0"
    } else if d == 1 {
        "1"
    } else if d == 2 {
        "2"
    } else if d == 3 {
        "3"
    } else if d == 4 {
        "4"
    } else if d == 5 {
        "5"
    } else if d == 6 {
        "6"
    } else if d == 7 {
        "7"
    } else if d == 8 {
        "8"
    } else {
        "9"
    }
}

/// Appends the decimal digits of `n` to `out`.
pub fn push_decimal(out: &mut String, n: u64)
    ensures
        final(out)@ == old(out)@ + decimal(n as nat),
    decreases n,
{
    if n >= 10 {
        push_decimal(out, n / 10);
    }
    out.append(digit_text(n % 10));
}

/// The decimal text of `n`.
pub fn decimal_string(n: u64) -> (text: String)
    ensures
        text@ == decimal(n as nat),
{
    let mut text = String::new();
    push_decimal(&mut text, n);
    text
}

/// Ten to the power `e`, for the few powers that a fraction of a second needs.
fn power_of_ten(e: u32) -> (p: u64)
    requires
        e <= 6,
    ensures
        p == pow10(e as nat),
        1 <= p <= 1_000_000,
{
    let mut p: u64 = 1;
    let mut i: u32 = 0;
    while i < e
        invariant
            i <= e <= 6,
            p == pow10(i as nat),
            1 <= p,
            i == 0 ==> p == 1,
            i == 1 ==> p == 10,
            i == 2 ==> p == 100,
            i == 3 ==> p == 1_000,
            i == 4 ==> p == 10_000,
            i == 5 ==> p == 100_000,
            i == 6 ==> p == 1_000_000,
        decreases e - i,
    {
        p = p * 10;
        i = i + 1;
    }
    p
}

/// Appends the digits of `frac`, a fraction with `places` decimal places.
fn push_fraction(out: &mut String, frac: u64, places: u32)
    requires
        places <= 6,
        frac < pow10(places as nat),
    ensures
        final(out)@ == old(out)@ + fraction_digits(frac as nat, places as nat),
    decreases places,
{
    if frac != 0 && places != 0 {
        let unit = power_of_ten(places - 1);
        assert(frac / unit < 10) by (nonlinear_arith)
            requires
                frac < 10 * unit,
                unit >= 1,
        ;
        out.append(digit_text(frac / unit));
        push_fraction(out, frac % unit, places - 1);
    }
}

/// Writes a time in microseconds as seconds, as [`seconds_text`] describes.
pub fn seconds_string(micros: i64) -> (text: String)
    ensures
        text@ == seconds_text(micros as int),
{
    proof {
        reveal_strlit("-");
        reveal_strlit(".");
        reveal_with_fuel(pow10, 7);
    }
    let magnitude: u64 = if micros < 0 {
        ( -( micros as i128 ) ) as u64
    } else {
        micros as u64
    };
    let mut text = String::new();
    if micros < 0 {
        text.append("-");
    }
    push_decimal(&mut text, magnitude / 1_000_000);
    let frac: u64 = magnitude % 1_000_000;
    if frac != 0 {
        text.append(".");
        push_fraction(&mut text, frac, 6);
    }
    text
}

} // verus!
