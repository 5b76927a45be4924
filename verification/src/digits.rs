//! Decimal rendering of integers, character by character, proved against a
//! recursive specification of the usual base-ten digit sequence.

use vstd::prelude::*;

verus! {

/// The character for one decimal digit.
pub open spec fn spec_digit_char(d: int) -> char
    recommends
        0 <= d < 10,
{
    if d == 0 {
        '0'
    } else if d == 1 {
        '1'
    } else if d == 2 {
        '2'
    } else if d == 3 {
        '3'
    } else if d == 4 {
        '4'
    } else if d == 5 {
        '5'
    } else if d == 6 {
        '6'
    } else if d == 7 {
        '7'
    } else if d == 8 {
        '8'
    } else {
        '9'
    }
}

/// The decimal digits of a non-negative number, most significant first.
pub open spec fn spec_decimal_digits(n: nat) -> Seq<char>
    decreases n,
{
    if n < 10 {
        seq![spec_digit_char(n as int)]
    } else {
        spec_decimal_digits(n / 10) + seq![spec_digit_char((n % 10) as int)]
    }
}

/// The usual signed decimal rendering: a leading minus sign for negative
/// numbers, no sign otherwise.
pub open spec fn spec_signed_decimal(i: int) -> Seq<char> {
    if i < 0 {
        seq!['-'] + spec_decimal_digits((-i) as nat)
    } else {
        spec_decimal_digits(i as nat)
    }
}

/// The one-character string for one decimal digit.
fn digit_str(d: u64) -> (r: &'static str)
    requires
        d < 10,
    ensures
        r@ == seq![spec_digit_char(d as int)],
{
    proof {
        reveal_strlit("0");
        reveal_strlit("1");
        reveal_strlit("2");
        reveal_strlit("3");
        reveal_strlit("4");
        reveal_strlit("5");
        reveal_strlit("6");
        reveal_strlit("7");
        reveal_strlit("8");
        reveal_strlit("9");
    }
    if d == 0 {
        proof {
            assert("0"@ =~= seq![spec_digit_char(0)]);
        }
        "0"
    } else if d == 1 {
        proof {
            assert("1"@ =~= seq![spec_digit_char(1)]);
        }
        "1"
    } else if d == 2 {
        proof {
            assert("2"@ =~= seq![spec_digit_char(2)]);
        }
        "2"
    } else if d == 3 {
        proof {
            assert("3"@ =~= seq![spec_digit_char(3)]);
        }
        "3"
    } else if d == 4 {
        proof {
            assert("4"@ =~= seq![spec_digit_char(4)]);
        }
        "4"
    } else if d == 5 {
        proof {
            assert("5"@ =~= seq![spec_digit_char(5)]);
        }
        "5"
    } else if d == 6 {
        proof {
            assert("6"@ =~= seq![spec_digit_char(6)]);
        }
        "6"
    } else if d == 7 {
        proof {
            assert("7"@ =~= seq![spec_digit_char(7)]);
        }
        "7"
    } else if d == 8 {
        proof {
            assert("8"@ =~= seq![spec_digit_char(8)]);
        }
        "8"
    } else {
        proof {
            assert("9"@ =~= seq![spec_digit_char(9)]);
        }
        "9"
    }
}

/// Appends the decimal digits of `n` to `out`.
fn push_decimal_digits(n: u64, out: &mut String)
    ensures
        final(out)@ == old(out)@ + spec_decimal_digits(n as nat),
    decreases n,
{
    if n >= 10 {
        push_decimal_digits(n / 10, out);
        let d = digit_str(n % 10);
        out.append(d);
        proof {
            assert(out@ =~= old(out)@ + spec_decimal_digits(n as nat));
        }
    } else {
        let d = digit_str(n);
        out.append(d);
        proof {
            assert(out@ =~= old(out)@ + spec_decimal_digits(n as nat));
        }
    }
}

/// Renders a signed integer in decimal, exactly as its display form prints it.
pub fn signed_decimal_string(i: i32) -> (r: String)
    ensures
        r@ == spec_signed_decimal(i as int),
{
    let mut out = String::new();
    if i < 0 {
        proof {
            reveal_strlit("-");
        }
        out.append("-");
        let wide: i64 = i as i64;
        let mag: u64 = (-wide) as u64;
        push_decimal_digits(mag, &mut out);
        proof {
            assert(out@ =~= spec_signed_decimal(i as int));
        }
    } else {
        let mag: u64 = i as u64;
        push_decimal_digits(mag, &mut out);
        proof {
            assert(out@ =~= spec_signed_decimal(i as int));
        }
    }
    out
}

} // verus!
