//! Numbers as text: decimal, and upper-case hexadecimal with or without
//! leading zeros.

use vstd::prelude::*;
use crate::text::{push_char, push_chars};

verus! {

/// The character for the digit `d` (below 16), letters in upper case.
pub open spec fn digit_char(d: int) -> char {
    if d < 10 {
        (('0' as int) + d) as char
    } else {
        (('A' as int) + d - 10) as char
    }
}

/// `n` written in the radix, without leading zeros (`0` is one digit).
pub open spec fn digits(n: nat, radix: nat) -> Seq<char>
    decreases n,
    via digits_decreases
{
    if radix < 2 || n < radix {
        seq![digit_char(n as int)]
    } else {
        digits(n / radix, radix).push(digit_char((n % radix) as int))
    }
}

/// `n` in decimal.
pub open spec fn decimal(n: nat) -> Seq<char> {
    digits(n, 10)
}

/// `n` in upper-case hexadecimal.
pub open spec fn upper_hex(n: nat) -> Seq<char> {
    digits(n, 16)
}

/// `count` zeros.
pub open spec fn zeros(count: int) -> Seq<char> {
    Seq::new(
        if count > 0 {
            count as nat
        } else {
            0
        },
        |i: int| '0',
    )
}

/// `n` in upper-case hexadecimal, with zeros in front up to `width` digits.
pub open spec fn padded_hex(n: nat, width: nat) -> Seq<char> {
    zeros(width - upper_hex(n).len()) + upper_hex(n)
}

#[via_fn]
proof fn digits_decreases(n: nat, radix: nat) {
    if radix >= 2 && n >= radix {
        lemma_quotient_smaller(n, radix);
    }
}

/// Dividing by two or more makes a positive number smaller.
pub proof fn lemma_quotient_smaller(n: nat, radix: nat)
    requires
        radix >= 2,
        n >= radix,
    ensures
        n / radix < n,
{
    assert(n / radix < n) by (nonlinear_arith)
        requires
            radix >= 2,
            n >= radix,
    ;
}

/// The character for the digit `d`.
pub fn digit_to_char(d: u64) -> (c: char)
    requires
        d < 16,
    ensures
        c == digit_char(d as int),
{
    let b: u8 = d as u8;
    if b < 10 {
        (48u8 + b) as char
    } else {
        (65u8 + (b - 10)) as char
    }
}

/// Appends `n`, written in the radix, to `out`.
pub fn push_digits(out: &mut Vec<char>, n: u64, radix: u64)
    requires
        2 <= radix <= 16,
    ensures
        final(out)@ == old(out)@ + digits(n as nat, radix as nat),
    decreases n,
{
    if n >= radix {
        proof {
            lemma_quotient_smaller(n as nat, radix as nat);
        }
        push_digits(out, n / radix, radix);
        out.push(digit_to_char(n % radix));
        assert(out@ == old(out)@ + digits((n / radix) as nat, radix as nat).push(
            digit_char((n % radix) as int),
        ));
    } else {
        out.push(digit_to_char(n));
        assert(out@ == old(out)@ + seq![digit_char(n as int)]);
    }
}

/// Appends `n` in decimal to `s`.
pub fn push_decimal(s: &mut String, n: u64)
    ensures
        final(s)@ == old(s)@ + decimal(n as nat),
{
    let mut out: Vec<char> = Vec::new();
    push_digits(&mut out, n, 10);
    push_chars(s, &out);
}

/// Appends `n` in upper-case hexadecimal to `s`.
pub fn push_upper_hex(s: &mut String, n: u64)
    ensures
        final(s)@ == old(s)@ + upper_hex(n as nat),
{
    let mut out: Vec<char> = Vec::new();
    push_digits(&mut out, n, 16);
    push_chars(s, &out);
}

/// Appends `n` in upper-case hexadecimal to `s`, with zeros in front up to
/// `width` digits.
pub fn push_padded_hex(s: &mut String, n: u64, width: usize)
    ensures
        final(s)@ == old(s)@ + padded_hex(n as nat, width as nat),
{
    let mut out: Vec<char> = Vec::new();
    push_digits(&mut out, n, 16);
    let mut i: usize = out.len();
    let ghost fill = zeros(width - out@.len());
    while i < width
        invariant
            out@.len() <= i <= width || (i == out@.len() && i > width),
            fill == zeros(width - out@.len()),
            s@ == old(s)@ + fill.take(i - out@.len()),
        decreases width - i,
    {
        push_char(s, '0');
        assert(fill.take(i - out@.len()).push('0') == fill.take(i + 1 - out@.len()));
        i += 1;
    }
    assert(fill.take(i - out@.len()) == fill);
    push_chars(s, &out);
    assert(s@ == old(s)@ + (fill + out@));
}

/// `n` in decimal.
pub fn decimal_string(n: u64) -> (s: String)
    ensures
        s@ == decimal(n as nat),
{
    let mut s: String = String::new();
    push_decimal(&mut s, n);
    assert(s@ == Seq::<char>::empty() + decimal(n as nat));
    s
}

/// `n` in upper-case hexadecimal.
pub fn upper_hex_string(n: u64) -> (s: String)
    ensures
        s@ == upper_hex(n as nat),
{
    let mut s: String = String::new();
    push_upper_hex(&mut s, n);
    assert(s@ == Seq::<char>::empty() + upper_hex(n as nat));
    s
}

} // verus!
