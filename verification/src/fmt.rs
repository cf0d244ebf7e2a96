//! Decimal rendering of the figures the summary and the panels show:
//! whole numbers, and fixed-point values carried in hundredths.

use vstd::prelude::*;
use vstd::string::StringExecFns;

verus! {

/// The character for one decimal digit.
pub open spec fn spec_digit(d: int) -> char {
    if d == 0 {
        '0'
    } else if d == 1 {
        '1'
    } else if d == 2 {
        '2'
    } else if d == 3 {
        '3'
    } else if d == 4 {
        '4'
    } else if d == 5 {
        '5'
    } else if d == 6 {
        '6'
    } else if d == 7 {
        '7'
    } else if d == 8 {
        '8'
    } else {
        '9'
    }
}

/// The decimal rendering of a non-negative number, most significant digit
/// first, with no leading zeroes except for the number zero itself.
pub open spec fn spec_dec(n: int) -> Seq<char>
    decreases n,
{
    if n < 10 {
        seq![spec_digit(n)]
    } else {
        spec_dec(n / 10).push(spec_digit(n % 10))
    }
}

/// The rendering of a value carried in hundredths, with exactly two
/// digits after the decimal point.
pub open spec fn spec_centi(v: int) -> Seq<char> {
    spec_dec(v / 100) + seq!['.', spec_digit((v / 10) % 10), spec_digit(v % 10)]
}

fn digit_str(d: u64) -> (s: &'static str)
    requires
        d < 10,
    ensures
        s@ == seq![spec_digit(d as int)],
{
    proof {
        reveal_strlit("0");
        reveal_strlit("1");
        reveal_strlit("2");
        reveal_strlit("3");
        reveal_strlit("4");
        reveal_strlit("5");
        reveal_strlit("6");
        reveal_strlit("7");
        reveal_strlit("8");
        reveal_strlit("9");
    }
    if d == 0 {
        proof { assert("0"@ =~= seq![spec_digit(0)]); }
        "0"
    } else if d == 1 {
        proof { assert("1"@ =~= seq![spec_digit(1)]); }
        "1"
    } else if d == 2 {
        proof { assert("2"@ =~= seq![spec_digit(2)]); }
        "2"
    } else if d == 3 {
        proof { assert("3"@ =~= seq![spec_digit(3)]); }
        "3"
    } else if d == 4 {
        proof { assert("4"@ =~= seq![spec_digit(4)]); }
        "4"
    } else if d == 5 {
        proof { assert("5"@ =~= seq![spec_digit(5)]); }
        "5"
    } else if d == 6 {
        proof { assert("6"@ =~= seq![spec_digit(6)]); }
        "6"
    } else if d == 7 {
        proof { assert("7"@ =~= seq![spec_digit(7)]); }
        "7"
    } else if d == 8 {
        proof { assert("8"@ =~= seq![spec_digit(8)]); }
        "8"
    } else {
        proof { assert("9"@ =~= seq![spec_digit(9)]); }
        "9"
    }
}

/// Renders a number in decimal.
pub fn u64_to_string(n: u64) -> (s: String)
    ensures
        s@ == spec_dec(n as int),
    decreases n,
{
    if n < 10 {
        String::from_str(digit_str(n))
    } else {
        let mut s = u64_to_string(n / 10);
        s.append(digit_str(n % 10));
        s
    }
}

/// Renders a value carried in hundredths with two decimal places, the way
/// percentages, scores and elapsed seconds are displayed.
pub fn centi_to_string(v: u64) -> (s: String)
    ensures
        s@ == spec_centi(v as int),
{
    let mut s = u64_to_string(v / 100);
    s.append(".");
    s.append(digit_str((v / 10) % 10));
    s.append(digit_str(v % 10));
    proof {
        reveal_strlit(".");
        assert(s@ =~= spec_centi(v as int));
    }
    s
}

} // verus!
