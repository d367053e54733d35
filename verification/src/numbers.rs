//! Decimal text of integers.
use vstd::prelude::*;

use crate::strings::concat;

verus! {

/// The character of a decimal digit.
pub open spec fn digit_char(d: nat) -> char {
    if d == 0 {
        '0'
    } else if d == 1 {
        '1'
    } else if d == 2 {
        '2'
    } else if d == 3 {
        '3'
    } else if d == 4 {
        '4'
    } else if d == 5 {
        '5'
    } else if d == 6 {
        '6'
    } else if d == 7 {
        '7'
    } else if d == 8 {
        '8'
    } else {
        '9'
    }
}

/// The decimal digits of `n`, most significant first, without leading zeros.
pub open spec fn decimal_nat(n: nat) -> Seq<char>
    decreases n,
{
    if n < 10 {
        seq![digit_char(n)]
    } else {
        decimal_nat(n / 10) + seq![digit_char(n % 10)]
    }
}

/// The decimal text of an `i32`, with a leading `-` when it is negative.
pub open spec fn decimal_i32(c: i32) -> Seq<char> {
    if c < 0 {
        seq!['-'] + decimal_nat((-c) as nat)
    } else {
        decimal_nat(c as nat)
    }
}

fn digit_str(d: u64) -> (r: &'static str)
    requires
        d < 10,
    ensures
        r@ == seq![digit_char(d as nat)],
{
    proof {
        reveal_strlit("0");
        reveal_strlit("1");
        reveal_strlit("2");
        reveal_strlit("3");
        reveal_strlit("4");
        reveal_strlit("5");
        reveal_strlit("6");
        reveal_strlit("7");
        reveal_strlit("8");
        reveal_strlit("9");
    }
    let r = if d == 0 {
        "0"
    } else if d == 1 {
        "1"
    } else if d == 2 {
        "2"
    } else if d == 3 {
        "3"
    } else if d == 4 {
        "4"
    } else if d == 5 {
        "5"
    } else if d == 6 {
        "6"
    } else if d == 7 {
        "7"
    } else if d == 8 {
        "8"
    } else {
        "9"
    };
    assert(r@ =~= seq![digit_char(d as nat)]);
    r
}

/// The decimal text of a natural number.
pub fn u64_to_string(v: u64) -> (r: String)
    ensures
        r@ == decimal_nat(v as nat),
{
    let mut n: u64 = v / 10;
    let mut s = String::from_str(digit_str(v % 10));
    while n > 0
        invariant
            decimal_nat(v as nat) == (if n == 0 {
                Seq::<char>::empty()
            } else {
                decimal_nat(n as nat)
            }) + s@,
        decreases n,
    {
        let d = digit_str(n % 10);
        s = concat(d, s.as_str());
        assert(decimal_nat(n as nat) == (if n / 10 == 0 {
            Seq::<char>::empty()
        } else {
            decimal_nat((n / 10) as nat)
        }) + seq![digit_char((n % 10) as nat)]);
        n = n / 10;
    }
    assert(decimal_nat(v as nat) =~= s@);
    s
}

/// The decimal text of an `i32`.
pub fn i32_to_string(c: i32) -> (r: String)
    ensures
        r@ == decimal_i32(c),
{
    proof {
        reveal_strlit("-");
    }
    if c < 0 {
        let m: i64 = -(c as i64);
        let digits = u64_to_string(m as u64);
        concat("-", digits.as_str())
    } else {
        u64_to_string(c as u64)
    }
}

} // verus!
