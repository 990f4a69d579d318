//! Decimal rendering of signed 32-bit integers, used to embed an unrecognized
//! error code in its description.

use vstd::prelude::*;

verus! {

/// The character for a single decimal digit value.
pub open spec fn digit_char(d: int) -> char {
    if d == 0 {
        '0'
    } else if d == 1 {
        '1'
    } else if d == 2 {
        '2'
    } else if d == 3 {
        '3'
    } else if d == 4 {
        '4'
    } else if d == 5 {
        '5'
    } else if d == 6 {
        '6'
    } else if d == 7 {
        '7'
    } else if d == 8 {
        '8'
    } else {
        '9'
    }
}

/// The decimal digit sequence of a non-negative integer, most significant
/// digit first, with no leading zeros (except for zero itself).
pub open spec fn dec_digits(n: nat) -> Seq<char>
    decreases n,
{
    if n < 10 {
        seq![digit_char(n as int)]
    } else {
        dec_digits(n / 10) + seq![digit_char((n % 10) as int)]
    }
}

/// The decimal rendering of a signed integer: a minus sign before the digit
/// sequence of the magnitude when the value is negative.
pub open spec fn dec_string(n: int) -> Seq<char> {
    if n < 0 {
        seq!['-'] + dec_digits((-n) as nat)
    } else {
        dec_digits(n as nat)
    }
}

/// A one-character string slice for a decimal digit value.
fn digit_str(d: u32) -> (s: &'static str)
    requires
        d < 10,
    ensures
        s@ == seq![digit_char(d as int)],
{
    proof {
        reveal_strlit("0");
        reveal_strlit("1");
        reveal_strlit("2");
        reveal_strlit("3");
        reveal_strlit("4");
        reveal_strlit("5");
        reveal_strlit("6");
        reveal_strlit("7");
        reveal_strlit("8");
        reveal_strlit("9");
    }
    match d {
        0 => "0",
        1 => "1",
        2 => "2",
        3 => "3",
        4 => "4",
        5 => "5",
        6 => "6",
        7 => "7",
        8 => "8",
        _ => "9",
    }
}

/// The decimal digits of `m`, most significant first.
fn u32_to_decimal(m: u32) -> (s: String)
    ensures
        s@ == dec_digits(m as nat),
{
    let mut s: String = String::from_str(digit_str(m % 10));
    let mut r: u32 = m / 10;
    proof {
        if r > 0 {
            assert(dec_digits(m as nat) == dec_digits(r as nat) + s@);
        }
    }
    while r > 0
        invariant
            r > 0 ==> dec_digits(m as nat) == dec_digits(r as nat) + s@,
            r == 0 ==> dec_digits(m as nat) == s@,
        decreases r,
    {
        let ghost old_r: nat = r as nat;
        let ghost old_s: Seq<char> = s@;
        let d: u32 = r % 10;
        s = String::from_str(digit_str(d)).concat(s.as_str());
        r = r / 10;
        proof {
            if old_r >= 10 {
                assert(dec_digits(old_r) == dec_digits(old_r / 10) + seq![
                    digit_char((old_r % 10) as int),
                ]);
                assert(dec_digits(old_r / 10) + (seq![digit_char((old_r % 10) as int)] + old_s)
                    =~= (dec_digits(old_r / 10) + seq![digit_char((old_r % 10) as int)]) + old_s);
            }
        }
    }
    s
}

/// The decimal rendering of a signed 32-bit integer, matching `dec_string`.
pub fn i32_to_decimal(n: i32) -> (s: String)
    ensures
        s@ == dec_string(n as int),
{
    if n < 0 {
        let m: u32 = (-(n as i64)) as u32;
        let digits = u32_to_decimal(m);
        proof {
            reveal_strlit("-");
        }
        String::from_str("-").concat(digits.as_str())
    } else {
        u32_to_decimal(n as u32)
    }
}

/// The decimal rendering is never empty.
pub proof fn lemma_dec_string_nonempty(n: int)
    ensures
        dec_string(n).len() > 0,
{
}

} // verus!
