//! Decimal text rendering.
//!
//! The log line and the `Cache-Control` header both embed numbers in decimal.
//! `dec_rep` is the mathematical shape of a number's decimal text; the
//! executable functions below build strings proved equal to it.

use vstd::prelude::*;

verus! {

/// `String::push` appends one character; vstd leaves it unspecified.
pub assume_specification[ String::push ](s: &mut String, c: char)
    ensures
        final(s)@ == old(s)@.push(c),
;

/// The character for the decimal digit `d`.
pub open spec fn digit_char(d: nat) -> char
    recommends
        d < 10,
{
    ((48 + d) as u8) as char
}

/// Decimal text of `n`: most significant digit first, no leading zeros
/// (except for `n == 0`, which is the single digit `0`).
pub open spec fn dec_rep(n: nat) -> Seq<char>
    decreases n,
{
    if n < 10 {
        seq![digit_char(n)]
    } else {
        dec_rep(n / 10).push(digit_char(n % 10))
    }
}

/// The last `width` decimal digits of `n`, zero-padded on the left to exactly
/// `width` characters.
pub open spec fn padded_dec_rep(n: nat, width: nat) -> Seq<char>
    decreases width,
{
    if width == 0 {
        Seq::empty()
    } else {
        padded_dec_rep(n / 10, (width - 1) as nat).push(digit_char(n % 10))
    }
}

fn digit_to_char(d: u64) -> (c: char)
    requires
        d < 10,
    ensures
        c == digit_char(d as nat),
{
    (48 + d as u8) as char
}

/// Appends the decimal text of `n` to `s`.
pub fn push_dec_u64(s: &mut String, n: u64)
    ensures
        final(s)@ == old(s)@ + dec_rep(n as nat),
    decreases n,
{
    if n >= 10 {
        push_dec_u64(s, n / 10);
    }
    let c = digit_to_char(n % 10);
    s.push(c);
    proof {
        assert(s@ =~= old(s)@ + dec_rep(n as nat));
    }
}

/// Appends exactly `width` decimal digits of `n` to `s`, zero-padded.
pub fn push_padded_dec_u64(s: &mut String, n: u64, width: u64)
    ensures
        final(s)@ == old(s)@ + padded_dec_rep(n as nat, width as nat),
    decreases width,
{
    if width > 0 {
        push_padded_dec_u64(s, n / 10, width - 1);
        let c = digit_to_char(n % 10);
        s.push(c);
    }
    proof {
        assert(s@ =~= old(s)@ + padded_dec_rep(n as nat, width as nat));
    }
}

/// The decimal text of `n` as a fresh string.
pub fn u64_to_dec_string(n: u64) -> (s: String)
    ensures
        s@ == dec_rep(n as nat),
{
    let mut s = String::new();
    push_dec_u64(&mut s, n);
    proof {
        assert(s@ =~= dec_rep(n as nat));
    }
    s
}

} // verus!
