//! Text formatting for the dashboard: decimal numbers, two-digit clock
//! fields, and fixed-point values written as `X.YZ` (used for utilization
//! percentages and for memory in gibibytes, both carried as hundredths).

use vstd::prelude::*;
use vstd::string::StringExecFns;

verus! {

/// The character for one decimal digit.
pub open spec fn spec_digit(d: int) -> char {
    if d == 0 {
        '0'
    } else if d == 1 {
        '1'
    } else if d == 2 {
        '2'
    } else if d == 3 {
        '3'
    } else if d == 4 {
        '4'
    } else if d == 5 {
        '5'
    } else if d == 6 {
        '6'
    } else if d == 7 {
        '7'
    } else if d == 8 {
        '8'
    } else {
        '9'
    }
}

/// Decimal writing of `n`, most significant digit first, without leading
/// zeros (a lone `0` for zero).
pub open spec fn spec_decimal(n: nat) -> Seq<char>
    decreases n,
{
    if n < 10 {
        seq![spec_digit(n as int)]
    } else {
        spec_decimal(n / 10) + seq![spec_digit((n % 10) as int)]
    }
}

/// A value below 100 written with exactly two digits, leading zero included.
pub open spec fn spec_two_digit(n: int) -> Seq<char> {
    seq![spec_digit(n / 10), spec_digit(n % 10)]
}

/// A quantity of hundredths written as `X.YZ`: the whole part in decimal,
/// a point, and exactly two fraction digits.
pub open spec fn spec_centi(c: nat) -> Seq<char> {
    spec_decimal(c / 100) + seq!['.'] + spec_two_digit((c % 100) as int)
}

/// The one-character string for a decimal digit.
fn digit_str(d: u64) -> (s: &'static str)
    requires
        d < 10,
    ensures
        s@ == seq![spec_digit(d as int)],
{
    proof {
        reveal_strlit("0");
        reveal_strlit("1");
        reveal_strlit("2");
        reveal_strlit("3");
        reveal_strlit("4");
        reveal_strlit("5");
        reveal_strlit("6");
        reveal_strlit("7");
        reveal_strlit("8");
        reveal_strlit("9");
    }
    let s: &'static str = if d == 0 {
        "0"
    } else if d == 1 {
        "1"
    } else if d == 2 {
        "2"
    } else if d == 3 {
        "3"
    } else if d == 4 {
        "4"
    } else if d == 5 {
        "5"
    } else if d == 6 {
        "6"
    } else if d == 7 {
        "7"
    } else if d == 8 {
        "8"
    } else {
        "9"
    };
    proof {
        assert(s@ =~= seq![spec_digit(d as int)]);
    }
    s
}

/// Writes `n` in decimal, without leading zeros.
pub fn decimal_string(n: u64) -> (s: String)
    ensures
        s@ == spec_decimal(n as nat),
    decreases n,
{
    if n < 10 {
        digit_str(n).to_owned()
    } else {
        let mut s = decimal_string(n / 10);
        s.append(digit_str(n % 10));
        proof {
            assert(s@ =~= spec_decimal(n as nat));
        }
        s
    }
}

/// Writes a value below 100 with exactly two digits, leading zero included.
pub fn two_digit_string(n: u64) -> (s: String)
    requires
        n < 100,
    ensures
        s@ == spec_two_digit(n as int),
{
    let mut s = digit_str(n / 10).to_owned();
    s.append(digit_str(n % 10));
    proof {
        assert(s@ =~= spec_two_digit(n as int));
    }
    s
}

/// Writes a quantity of hundredths as `X.YZ`, e.g. `1007` as `10.07`.
pub fn centi_string(c: u64) -> (s: String)
    ensures
        s@ == spec_centi(c as nat),
{
    proof {
        reveal_strlit(".");
    }
    let mut s = decimal_string(c / 100);
    s.append(".");
    let frac = two_digit_string(c % 100);
    s.append(frac.as_str());
    proof {
        assert(s@ =~= spec_centi(c as nat));
    }
    s
}

} // verus!
