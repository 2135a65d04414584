//! Decimal rendering of unsigned integers: plain decimal for the entry
//! count in the header, and fixed-width zero-padded fields for dates.

use vstd::prelude::*;
use crate::strutil::push_char;

verus! {

/// Whether `c` is an ASCII decimal digit.
pub open spec fn is_digit(c: char) -> bool {
    c == '0' || c == '1' || c == '2' || c == '3' || c == '4' || c == '5' || c == '6' || c == '7'
        || c == '8' || c == '9'
}

/// The digit character for a value below ten.
pub open spec fn digit_char(d: int) -> char {
    if d == 0 {
        '0'
    } else if d == 1 {
        '1'
    } else if d == 2 {
        '2'
    } else if d == 3 {
        '3'
    } else if d == 4 {
        '4'
    } else if d == 5 {
        '5'
    } else if d == 6 {
        '6'
    } else if d == 7 {
        '7'
    } else if d == 8 {
        '8'
    } else {
        '9'
    }
}

/// The decimal rendering of `n`, without padding or sign.
pub open spec fn dec_str(n: nat) -> Seq<char>
    decreases n,
{
    if n < 10 {
        seq![digit_char(n as int)]
    } else {
        dec_str(n / 10).push(digit_char((n % 10) as int))
    }
}

/// The two-digit zero-padded rendering of `n` (meaningful for `n < 100`).
pub open spec fn pad2(n: int) -> Seq<char> {
    seq![digit_char(n / 10 % 10), digit_char(n % 10)]
}

/// The four-digit zero-padded rendering of `n` (meaningful for `n < 10000`).
pub open spec fn pad4(n: int) -> Seq<char> {
    seq![
        digit_char(n / 1000 % 10),
        digit_char(n / 100 % 10),
        digit_char(n / 10 % 10),
        digit_char(n % 10),
    ]
}

/// The digit character for a value below ten.
pub fn digit_of(d: u64) -> (c: char)
    requires
        d < 10,
    ensures
        c == digit_char(d as int),
{
    if d == 0 {
        '0'
    } else if d == 1 {
        '1'
    } else if d == 2 {
        '2'
    } else if d == 3 {
        '3'
    } else if d == 4 {
        '4'
    } else if d == 5 {
        '5'
    } else if d == 6 {
        '6'
    } else if d == 7 {
        '7'
    } else if d == 8 {
        '8'
    } else {
        '9'
    }
}

/// Renders `n` in decimal.
pub fn u64_to_dec(n: u64) -> (r: String)
    ensures
        r@ == dec_str(n as nat),
    decreases n,
{
    if n < 10 {
        let mut s = String::new();
        push_char(&mut s, digit_of(n));
        proof {
            assert(s@ =~= dec_str(n as nat));
        }
        s
    } else {
        let mut s = u64_to_dec(n / 10);
        push_char(&mut s, digit_of(n % 10));
        s
    }
}

/// Renders `n` as exactly two digits, zero-padded.
pub fn pad2_str(n: u64) -> (r: String)
    requires
        n < 100,
    ensures
        r@ == pad2(n as int),
{
    let mut s = String::new();
    push_char(&mut s, digit_of(n / 10 % 10));
    push_char(&mut s, digit_of(n % 10));
    proof {
        assert(s@ =~= pad2(n as int));
    }
    s
}

/// Renders `n` as exactly four digits, zero-padded.
pub fn pad4_str(n: u64) -> (r: String)
    requires
        n < 10000,
    ensures
        r@ == pad4(n as int),
{
    let mut s = String::new();
    push_char(&mut s, digit_of(n / 1000 % 10));
    push_char(&mut s, digit_of(n / 100 % 10));
    push_char(&mut s, digit_of(n / 10 % 10));
    push_char(&mut s, digit_of(n % 10));
    proof {
        assert(s@ =~= pad4(n as int));
    }
    s
}

} // verus!
