use hexview::command::{parse_command, Command};
use hexview::offset::ParseError;
use hexview::text::chars_of;

fn parse(line: &str) -> Command {
    parse_command(&chars_of(line))
}

#[test]
fn empty_line_is_no_command() {
    assert_eq!(parse(""), Command::Empty);
    assert_eq!(parse("   "), Command::Empty);
    assert_eq!(parse(" \t\u{a0}\u{3000} "), Command::Empty);
}

#[test]
fn q_quits_in_either_case() {
    assert_eq!(parse("q"), Command::Quit);
    assert_eq!(parse("Q"), Command::Quit);
    assert_eq!(parse("  q  "), Command::Quit);
}

#[test]
fn q_quits_whatever_follows() {
    assert_eq!(parse("q now"), Command::Quit);
    assert_eq!(parse("Q 1 2 3"), Command::Quit);
}

#[test]
fn words_that_begin_with_q_are_offsets() {
    assert_eq!(parse("quit"), Command::BadOffset(ParseError::InvalidDecimal));
    assert_eq!(parse("qq"), Command::BadOffset(ParseError::InvalidDecimal));
}

#[test]
fn page_alone_is_the_next_page() {
    assert_eq!(parse("page"), Command::NextPage);
    assert_eq!(parse("  PAGE "), Command::NextPage);
    assert_eq!(parse("Page"), Command::NextPage);
}

#[test]
fn page_with_a_signed_count() {
    assert_eq!(parse("page +2"), Command::PagesForward(2));
    assert_eq!(parse("page -1"), Command::PagesBack(1));
    assert_eq!(parse("page   +10  "), Command::PagesForward(10));
    assert_eq!(parse("page\t-007"), Command::PagesBack(7));
    assert_eq!(parse("page +0"), Command::PagesForward(0));
    assert_eq!(parse("page +18446744073709551615"), Command::PagesForward(u64::MAX));
}

#[test]
fn page_with_a_count_that_is_no_number() {
    assert_eq!(parse("page +"), Command::BadForwardCount);
    assert_eq!(parse("page +x"), Command::BadForwardCount);
    assert_eq!(parse("page +0x10"), Command::BadForwardCount);
    assert_eq!(parse("page ++1"), Command::BadForwardCount);
    assert_eq!(parse("page +18446744073709551616"), Command::BadForwardCount);
    assert_eq!(parse("page -"), Command::BadBackCount);
    assert_eq!(parse("page -1.5"), Command::BadBackCount);
    assert_eq!(parse("page --1"), Command::BadBackCount);
    assert_eq!(parse("page -+1"), Command::BadBackCount);
}

#[test]
fn page_with_another_shape_or_count_of_arguments() {
    assert_eq!(parse("page 2"), Command::BadPageFormat);
    assert_eq!(parse("page up"), Command::BadPageFormat);
    assert_eq!(parse("page +1 +2"), Command::BadPageFormat);
    assert_eq!(parse("page + 1"), Command::BadPageFormat);
    assert_eq!(parse("page a b c d"), Command::BadPageFormat);
}

#[test]
fn an_offset_is_a_jump() {
    assert_eq!(parse("0x40"), Command::Goto(64));
    assert_eq!(parse("64"), Command::Goto(64));
    assert_eq!(parse("  0X1f  "), Command::Goto(31));
    assert_eq!(parse("0"), Command::Goto(0));
}

#[test]
fn tokens_behind_an_offset_are_not_read() {
    assert_eq!(parse("100 200"), Command::Goto(100));
    assert_eq!(parse("0x10 page"), Command::Goto(16));
}

#[test]
fn a_first_token_that_is_no_offset() {
    assert_eq!(parse("hello"), Command::BadOffset(ParseError::InvalidDecimal));
    assert_eq!(parse("0xZZ"), Command::BadOffset(ParseError::InvalidHex));
    assert_eq!(parse("0x"), Command::BadOffset(ParseError::Empty));
    assert_eq!(parse("-1"), Command::BadOffset(ParseError::InvalidDecimal));
    assert_eq!(parse("+1"), Command::BadOffset(ParseError::InvalidDecimal));
    assert_eq!(parse("pages"), Command::BadOffset(ParseError::InvalidDecimal));
    assert_eq!(
        parse("99999999999999999999"),
        Command::BadOffset(ParseError::Overflow)
    );
}
