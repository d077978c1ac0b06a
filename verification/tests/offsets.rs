use hexview::offset::{parse_offset_or_length, ParseError};

#[test]
fn hexadecimal_literal_with_lower_prefix() {
    assert_eq!(parse_offset_or_length("0x1A"), Ok(26));
}

#[test]
fn decimal_literal() {
    assert_eq!(parse_offset_or_length("26"), Ok(26));
}

#[test]
fn hexadecimal_ff() {
    assert_eq!(parse_offset_or_length("0xFF"), Ok(255));
}

#[test]
fn negative_number_is_rejected() {
    assert_eq!(parse_offset_or_length("-1"), Err(ParseError::InvalidDecimal));
}

#[test]
fn letters_behind_the_prefix_are_rejected() {
    assert_eq!(parse_offset_or_length("0xZZ"), Err(ParseError::InvalidHex));
}

#[test]
fn empty_token_is_rejected() {
    assert_eq!(parse_offset_or_length(""), Err(ParseError::Empty));
}

#[test]
fn prefix_alone_is_rejected() {
    assert_eq!(parse_offset_or_length("0x"), Err(ParseError::Empty));
    assert_eq!(parse_offset_or_length("0X"), Err(ParseError::Empty));
}

#[test]
fn prefix_and_digits_in_either_case() {
    assert_eq!(parse_offset_or_length("0X1a"), Ok(26));
    assert_eq!(parse_offset_or_length("0xdeadBEEF"), Ok(0xDEAD_BEEF));
    assert_eq!(parse_offset_or_length("0x0"), Ok(0));
    assert_eq!(parse_offset_or_length("0x0010"), Ok(16));
}

#[test]
fn zero_and_leading_zeros() {
    assert_eq!(parse_offset_or_length("0"), Ok(0));
    assert_eq!(parse_offset_or_length("007"), Ok(7));
}

#[test]
fn plus_sign_is_rejected() {
    assert_eq!(parse_offset_or_length("+5"), Err(ParseError::InvalidDecimal));
    assert_eq!(parse_offset_or_length("0x+5"), Err(ParseError::InvalidHex));
    assert_eq!(parse_offset_or_length("+"), Err(ParseError::InvalidDecimal));
}

#[test]
fn hexadecimal_digits_without_prefix_are_rejected() {
    assert_eq!(parse_offset_or_length("1A"), Err(ParseError::InvalidDecimal));
    assert_eq!(parse_offset_or_length("x10"), Err(ParseError::InvalidDecimal));
}

#[test]
fn blanks_and_separators_are_rejected() {
    assert_eq!(parse_offset_or_length(" 1"), Err(ParseError::InvalidDecimal));
    assert_eq!(parse_offset_or_length("1 "), Err(ParseError::InvalidDecimal));
    assert_eq!(parse_offset_or_length("1_000"), Err(ParseError::InvalidDecimal));
    assert_eq!(parse_offset_or_length("0x1 "), Err(ParseError::InvalidHex));
}

#[test]
fn digits_of_other_scripts_are_rejected() {
    assert_eq!(parse_offset_or_length("\u{0663}"), Err(ParseError::InvalidDecimal));
    assert_eq!(parse_offset_or_length("0x\u{ff11}"), Err(ParseError::InvalidHex));
}

#[test]
fn largest_values() {
    assert_eq!(parse_offset_or_length("18446744073709551615"), Ok(u64::MAX));
    assert_eq!(parse_offset_or_length("0xFFFFFFFFFFFFFFFF"), Ok(u64::MAX));
    assert_eq!(parse_offset_or_length("0x0000000000000000FFFFFFFFFFFFFFFF"), Ok(u64::MAX));
}

#[test]
fn values_above_the_largest_overflow() {
    assert_eq!(parse_offset_or_length("18446744073709551616"), Err(ParseError::Overflow));
    assert_eq!(parse_offset_or_length("0x10000000000000000"), Err(ParseError::Overflow));
    assert_eq!(
        parse_offset_or_length("99999999999999999999999999999999"),
        Err(ParseError::Overflow)
    );
}

#[test]
fn a_bad_character_counts_before_the_size() {
    assert_eq!(
        parse_offset_or_length("99999999999999999999999999x"),
        Err(ParseError::InvalidDecimal)
    );
    assert_eq!(
        parse_offset_or_length("0xFFFFFFFFFFFFFFFFFFFFg"),
        Err(ParseError::InvalidHex)
    );
}

#[test]
fn reasons_in_words() {
    assert_eq!(ParseError::InvalidHex.message(), "invalid digit found in string");
    assert_eq!(ParseError::InvalidDecimal.message(), "invalid digit found in string");
    assert_eq!(ParseError::Empty.message(), "cannot parse integer from empty string");
    assert_eq!(ParseError::Overflow.message(), "number too large to fit in target type");
}
