//! Offset literals: unsigned decimal numbers, or hexadecimal ones behind a
//! `0x` prefix.

use vstd::prelude::*;
use crate::text::chars_of;

verus! {

/// Why a token is no offset.
#[derive(Clone, Copy, Debug, PartialEq, Eq, Structural)]
pub enum ParseError {
    /// A character behind the `0x` prefix is no hexadecimal digit.
    InvalidHex,
    /// A character of a token without the prefix is no decimal digit.
    InvalidDecimal,
    /// There is no digit at all.
    Empty,
    /// The digits denote a number above `u64::MAX`.
    Overflow,
}

/// The value of `c` as a digit of the given radix (10 or 16), if it is one.
pub open spec fn digit_value(c: char, radix: int) -> Option<int> {
    if '0' <= c && c <= '9' {
        Some((c as int) - ('0' as int))
    } else if radix == 16 && 'a' <= c && c <= 'f' {
        Some((c as int) - ('a' as int) + 10)
    } else if radix == 16 && 'A' <= c && c <= 'F' {
        Some((c as int) - ('A' as int) + 10)
    } else {
        None
    }
}

/// Whether every character of `s` is a digit of the radix.
pub open spec fn all_digits(s: Seq<char>, radix: int) -> bool {
    forall|i: int| 0 <= i < s.len() ==> (#[trigger] digit_value(s[i], radix)) is Some
}

/// The number that the digits `s` denote, most significant digit first.
pub open spec fn number_value(s: Seq<char>, radix: int) -> int
    decreases s.len(),
{
    if s.len() == 0 {
        0
    } else {
        number_value(s.drop_last(), radix) * radix + digit_value(s.last(), radix).unwrap_or(0)
    }
}

/// The error for a character that is no digit of the radix.
pub open spec fn invalid_digit(radix: int) -> ParseError {
    if radix == 16 {
        ParseError::InvalidHex
    } else {
        ParseError::InvalidDecimal
    }
}

/// What a run of digits parses to: no sign, no blanks, no separators.
pub open spec fn parse_digits(s: Seq<char>, radix: int) -> Result<u64, ParseError> {
    if s.len() == 0 {
        Err(ParseError::Empty)
    } else if !all_digits(s, radix) {
        Err(invalid_digit(radix))
    } else if number_value(s, radix) > u64::MAX {
        Err(ParseError::Overflow)
    } else {
        Ok(number_value(s, radix) as u64)
    }
}

/// Whether `s` begins with `0x` or `0X`.
pub open spec fn has_hex_prefix(s: Seq<char>) -> bool {
    s.len() >= 2 && s[0] == '0' && (s[1] == 'x' || s[1] == 'X')
}

/// What a token parses to as an offset.
pub open spec fn parse_offset(s: Seq<char>) -> Result<u64, ParseError> {
    if has_hex_prefix(s) {
        parse_digits(s.skip(2), 16)
    } else {
        parse_digits(s, 10)
    }
}

/// A number of digits of a radix is never negative, and one more digit
/// never makes it smaller.
pub proof fn lemma_number_value_grows(s: Seq<char>, radix: int)
    requires
        radix == 10 || radix == 16,
        s.len() > 0,
    ensures
        0 <= number_value(s.drop_last(), radix) <= number_value(s, radix),
    decreases s.len(),
{
    let head = s.drop_last();
    if head.len() > 0 {
        lemma_number_value_grows(head, radix);
    }
    let v = number_value(head, radix);
    assert(v * radix >= v) by (nonlinear_arith)
        requires
            v >= 0,
            radix >= 1,
    ;
}

/// The value of `c` as a digit of the radix, if it is one.
pub fn digit_of(c: char, radix: u64) -> (d: Option<u64>)
    requires
        radix == 10 || radix == 16,
    ensures
        match d {
            Some(v) => digit_value(c, radix as int) == Some(v as int) && v < radix,
            None => digit_value(c, radix as int) is None,
        },
{
    let n: u32 = c as u32;
    if c >= '0' && c <= '9' {
        Some((n - 48) as u64)
    } else if radix == 16 && c >= 'a' && c <= 'f' {
        Some((n - 97 + 10) as u64)
    } else if radix == 16 && c >= 'A' && c <= 'F' {
        Some((n - 65 + 10) as u64)
    } else {
        None
    }
}

/// Parses `line[start..end]` as a number of the radix.
pub fn parse_number(line: &Vec<char>, start: usize, end: usize, radix: u64) -> (r: Result<
    u64,
    ParseError,
>)
    requires
        radix == 10 || radix == 16,
        start <= end <= line.len(),
    ensures
        r == parse_digits(line@.subrange(start as int, end as int), radix as int),
{
    let ghost s = line@.subrange(start as int, end as int);
    if start == end {
        return Err(ParseError::Empty);
    }
    let mut value: u64 = 0;
    let mut overflow: bool = false;
    let mut i: usize = start;
    while i < end
        invariant
            radix == 10 || radix == 16,
            start <= i <= end <= line.len(),
            s == line@.subrange(start as int, end as int),
            all_digits(s.take(i - start), radix as int),
            0 <= number_value(s.take(i - start), radix as int),
            !overflow ==> value == number_value(s.take(i - start), radix as int),
            overflow ==> number_value(s.take(i - start), radix as int) > u64::MAX,
        decreases end - i,
    {
        let ghost before = s.take(i - start);
        let ghost after = s.take(i - start + 1);
        proof {
            assert(after.drop_last() == before);
            assert(after.last() == line@[i as int]);
            lemma_number_value_grows(after, radix as int);
        }
        match digit_of(line[i], radix) {
            None => {
                assert(digit_value(s[i - start], radix as int) is None);
                return Err(
                    if radix == 16 {
                        ParseError::InvalidHex
                    } else {
                        ParseError::InvalidDecimal
                    },
                );
            },
            Some(d) => {
                assert(all_digits(after, radix as int)) by {
                    assert forall|j: int| 0 <= j < after.len() implies (#[trigger] digit_value(
                        after[j],
                        radix as int,
                    )) is Some by {
                        if j < before.len() {
                            assert(after[j] == before[j]);
                        }
                    }
                }
                if !overflow {
                    match value.checked_mul(radix) {
                        None => {
                            overflow = true;
                        },
                        Some(scaled) => {
                            match scaled.checked_add(d) {
                                None => {
                                    overflow = true;
                                },
                                Some(next) => {
                                    value = next;
                                },
                            }
                        },
                    }
                }
            },
        }
        i += 1;
    }
    assert(s.take(end - start) == s);
    if overflow {
        Err(ParseError::Overflow)
    } else {
        Ok(value)
    }
}

/// Parses `line[start..end]` as an offset: hexadecimal behind `0x` or `0X`,
/// decimal otherwise.
pub fn parse_offset_in(line: &Vec<char>, start: usize, end: usize) -> (r: Result<u64, ParseError>)
    requires
        start <= end <= line.len(),
    ensures
        r == parse_offset(line@.subrange(start as int, end as int)),
{
    let ghost s = line@.subrange(start as int, end as int);
    if end - start >= 2 && line[start] == '0' && (line[start + 1] == 'x' || line[start + 1]
        == 'X') {
        assert(s[0] == line@[start as int] && s[1] == line@[start + 1]);
        assert(s.skip(2) == line@.subrange(start + 2, end as int));
        parse_number(line, start + 2, end, 16)
    } else {
        if end - start >= 2 {
            assert(s[0] == line@[start as int] && s[1] == line@[start + 1]);
        }
        parse_number(line, start, end, 10)
    }
}

/// Parses a token as an offset or a length: a decimal number, or a
/// hexadecimal one behind `0x` or `0X`. No sign is accepted.
pub fn parse_offset_or_length(s: &str) -> (r: Result<u64, ParseError>)
    ensures
        r == parse_offset(s@),
{
    let chars: Vec<char> = chars_of(s);
    assert(chars@.subrange(0, chars@.len() as int) == chars@);
    parse_offset_in(&chars, 0, chars.len())
}

impl ParseError {
    /// The reason in words.
    pub open spec fn reason(self) -> Seq<char> {
        match self {
            ParseError::InvalidHex | ParseError::InvalidDecimal => "invalid digit found in string"@,
            ParseError::Empty => "cannot parse integer from empty string"@,
            ParseError::Overflow => "number too large to fit in target type"@,
        }
    }

    /// The reason in words.
    pub fn message(&self) -> (s: String)
        ensures
            s@ == self.reason(),
    {
        match self {
            ParseError::InvalidHex | ParseError::InvalidDecimal => String::from_str(
                "invalid digit found in string",
            ),
            ParseError::Empty => String::from_str("cannot parse integer from empty string"),
            ParseError::Overflow => String::from_str("number too large to fit in target type"),
        }
    }
}

} // verus!
