//! Decimal rendering of the numbers that appear on a card: ordinals,
//! scores, timestamps and comment counts.

use vstd::prelude::*;
use vstd::string::StringExecFns;

verus! {

/// The decimal digit character for `d` (only meaningful for `0 <= d < 10`).
pub open spec fn spec_digit_char(d: int) -> char {
    if d == 0 {
        '0'
    } else if d == 1 {
        '1'
    } else if d == 2 {
        '2'
    } else if d == 3 {
        '3'
    } else if d == 4 {
        '4'
    } else if d == 5 {
        '5'
    } else if d == 6 {
        '6'
    } else if d == 7 {
        '7'
    } else if d == 8 {
        '8'
    } else {
        '9'
    }
}

/// The decimal digit string of a non-negative integer, most significant
/// digit first, without leading zeros (`0` itself is `"0"`).
pub open spec fn spec_udec(n: int) -> Seq<char>
    decreases n,
{
    if n < 10 {
        seq![spec_digit_char(n)]
    } else {
        spec_udec(n / 10).push(spec_digit_char(n % 10))
    }
}

/// The decimal string of an integer: a leading `-` for negative values,
/// then the digit string of the magnitude.
pub open spec fn spec_dec(v: int) -> Seq<char> {
    if v < 0 {
        seq!['-'].add(spec_udec(-v))
    } else {
        spec_udec(v)
    }
}

/// The one-character string for a single decimal digit.
fn digit_str(d: u64) -> (s: &'static str)
    requires
        d < 10,
    ensures
        s@ == seq![spec_digit_char(d as int)],
{
    let s = match d {
        0 => "0",
        1 => "1",
        2 => "2",
        3 => "3",
        4 => "4",
        5 => "5",
        6 => "6",
        7 => "7",
        8 => "8",
        _ => "9",
    };
    proof {
        reveal_strlit("0");
        reveal_strlit("1");
        reveal_strlit("2");
        reveal_strlit("3");
        reveal_strlit("4");
        reveal_strlit("5");
        reveal_strlit("6");
        reveal_strlit("7");
        reveal_strlit("8");
        reveal_strlit("9");
        assert(s@ =~= seq![spec_digit_char(d as int)]);
    }
    s
}

/// Renders an unsigned integer in decimal.
pub fn udec(n: u64) -> (s: String)
    ensures
        s@ == spec_udec(n as int),
    decreases n,
{
    if n < 10 {
        String::from_str(digit_str(n))
    } else {
        let mut s = udec(n / 10);
        s.append(digit_str(n % 10));
        proof {
            assert(s@ =~= spec_udec(n as int));
        }
        s
    }
}

/// Renders a signed integer in decimal.
pub fn dec(v: i64) -> (s: String)
    ensures
        s@ == spec_dec(v as int),
{
    if v >= 0 {
        udec(v as u64)
    } else {
        // The magnitude is computed as `-(v + 1) + 1` so that `i64::MIN`
        // stays in range.
        let magnitude = ((-(v + 1)) as u64) + 1;
        let mut s = String::from_str("-");
        s.append(udec(magnitude).as_str());
        proof {
            reveal_strlit("-");
            assert(s@ =~= spec_dec(v as int));
        }
        s
    }
}

} // verus!
