//! Rendering numbers into decimal text.
//!
//! The report lines and error messages of this library embed stage
//! indices, process ids and status values; the functions here render
//! them exactly as the specification functions describe, most
//! significant digit first and without leading zeroes.

use vstd::prelude::*;
use vstd::string::StringExecFns;

verus! {

/// The decimal digit character of `d`.
pub open spec fn spec_digit_char(d: int) -> char {
    if d == 0 {
        '0'
    } else if d == 1 {
        '1'
    } else if d == 2 {
        '2'
    } else if d == 3 {
        '3'
    } else if d == 4 {
        '4'
    } else if d == 5 {
        '5'
    } else if d == 6 {
        '6'
    } else if d == 7 {
        '7'
    } else if d == 8 {
        '8'
    } else {
        '9'
    }
}

/// The decimal rendering of a non-negative number, most significant
/// digit first and without leading zeroes.
pub open spec fn spec_nat_digits(v: int) -> Seq<char>
    decreases v,
{
    if v < 10 {
        seq![spec_digit_char(v)]
    } else {
        spec_nat_digits(v / 10).push(spec_digit_char(v % 10))
    }
}

/// The decimal rendering of a number, a minus sign first when it is
/// negative.
pub open spec fn spec_int_digits(v: int) -> Seq<char> {
    if v < 0 {
        seq!['-'] + spec_nat_digits(-v)
    } else {
        spec_nat_digits(v)
    }
}

/// Appends the decimal digit character of `d`.
fn append_digit(s: &mut String, d: u64)
    requires
        d < 10,
    ensures
        final(s)@ =~= old(s)@ + seq![spec_digit_char(d as int)],
{
    proof {
        reveal_strlit("0");
        reveal_strlit("1");
        reveal_strlit("2");
        reveal_strlit("3");
        reveal_strlit("4");
        reveal_strlit("5");
        reveal_strlit("6");
        reveal_strlit("7");
        reveal_strlit("8");
        reveal_strlit("9");
    }
    if d == 0 {
        s.append("0");
    } else if d == 1 {
        s.append("1");
    } else if d == 2 {
        s.append("2");
    } else if d == 3 {
        s.append("3");
    } else if d == 4 {
        s.append("4");
    } else if d == 5 {
        s.append("5");
    } else if d == 6 {
        s.append("6");
    } else if d == 7 {
        s.append("7");
    } else if d == 8 {
        s.append("8");
    } else {
        s.append("9");
    }
}

/// Appends the decimal rendering of `m`.
pub fn append_decimal(s: &mut String, m: u64)
    ensures
        final(s)@ =~= old(s)@ + spec_nat_digits(m as int),
    decreases m,
{
    if m >= 10 {
        append_decimal(s, m / 10);
    }
    append_digit(s, m % 10);
    proof {
        if m < 10 {
            assert(spec_nat_digits(m as int) =~= seq![spec_digit_char(m as int)]);
        } else {
            assert(spec_nat_digits(m as int) =~= spec_nat_digits(m as int / 10).push(
                spec_digit_char(m as int % 10),
            ));
        }
    }
}

/// Renders a number in decimal, a minus sign first when it is
/// negative.
pub fn i32_to_string(v: i32) -> (s: String)
    ensures
        s@ =~= spec_int_digits(v as int),
{
    let mut s = String::new();
    if v < 0 {
        s.append("-");
        proof {
            reveal_strlit("-");
            assert(s@ =~= seq!['-']);
        }
        let wide: i64 = v as i64;
        let m: u64 = (-wide) as u64;
        assert(m as int == -(v as int));
        append_decimal(&mut s, m);
        assert(s@ =~= seq!['-'] + spec_nat_digits(m as int));
    } else {
        append_decimal(&mut s, v as u64);
    }
    s
}

} // verus!
