//! Decimal rendering of the integer fields that appear in event
//! descriptions.

use vstd::prelude::*;
use vstd::string::StringExecFns;

verus! {

/// The decimal digit character for `d` in `0..10`.
pub open spec fn spec_digit(d: int) -> char {
    if d == 0 {
        '0'
    } else if d == 1 {
        '1'
    } else if d == 2 {
        '2'
    } else if d == 3 {
        '3'
    } else if d == 4 {
        '4'
    } else if d == 5 {
        '5'
    } else if d == 6 {
        '6'
    } else if d == 7 {
        '7'
    } else if d == 8 {
        '8'
    } else {
        '9'
    }
}

/// The decimal rendering of a non-negative `v`: most significant digit
/// first, no leading zeros, `0` rendered as itself.
pub open spec fn spec_u64_dec(v: int) -> Seq<char>
    decreases v,
{
    if v < 10 {
        seq![spec_digit(v)]
    } else {
        spec_u64_dec(v / 10) + seq![spec_digit(v % 10)]
    }
}

/// The decimal rendering of `v`: a minus sign for a negative value, then
/// the digits of its magnitude.
pub open spec fn spec_i16_dec(v: int) -> Seq<char> {
    if v < 0 {
        seq!['-'] + spec_u64_dec(-v)
    } else {
        spec_u64_dec(v)
    }
}

fn push_digit(s: &mut String, d: u64)
    requires
        d < 10,
    ensures
        final(s)@ == old(s)@ + seq![spec_digit(d as int)],
{
    proof {
        reveal_strlit("0");
        reveal_strlit("1");
        reveal_strlit("2");
        reveal_strlit("3");
        reveal_strlit("4");
        reveal_strlit("5");
        reveal_strlit("6");
        reveal_strlit("7");
        reveal_strlit("8");
        reveal_strlit("9");
    }
    if d == 0 {
        s.append("0");
    } else if d == 1 {
        s.append("1");
    } else if d == 2 {
        s.append("2");
    } else if d == 3 {
        s.append("3");
    } else if d == 4 {
        s.append("4");
    } else if d == 5 {
        s.append("5");
    } else if d == 6 {
        s.append("6");
    } else if d == 7 {
        s.append("7");
    } else if d == 8 {
        s.append("8");
    } else {
        s.append("9");
    }
    proof {
        assert(s@ =~= old(s)@ + seq![spec_digit(d as int)]);
    }
}

/// Appends the decimal rendering of `v` to `s`.
pub fn push_u64_dec(s: &mut String, v: u64)
    ensures
        final(s)@ == old(s)@ + spec_u64_dec(v as int),
    decreases v,
{
    if v >= 10 {
        push_u64_dec(s, v / 10);
    }
    push_digit(s, v % 10);
    proof {
        assert(s@ =~= old(s)@ + spec_u64_dec(v as int));
    }
}

/// Appends the decimal rendering of `v` to `s`, minus sign first for a
/// negative value.
pub fn push_i16_dec(s: &mut String, v: i16)
    ensures
        final(s)@ == old(s)@ + spec_i16_dec(v as int),
{
    if v < 0 {
        proof {
            reveal_strlit("-");
        }
        s.append("-");
        let m: i32 = -(v as i32);
        push_u64_dec(s, m as u64);
        proof {
            assert(s@ =~= old(s)@ + spec_i16_dec(v as int));
        }
    } else {
        push_u64_dec(s, v as u64);
    }
}

} // verus!
