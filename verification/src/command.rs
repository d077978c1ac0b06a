//! The command line: `q`, `page`, `page +N`, `page -N`, or an offset.

use vstd::prelude::*;
use crate::offset::{parse_digits, parse_number, parse_offset, parse_offset_in, ParseError};
use crate::text::{
    is_whitespace_char, is_word, lemma_skip_spaces, lemma_skip_word, same_word, skip_spaces,
    skip_word, tokens, tokens_from,
};

verus! {

/// What a command line asks for.
#[derive(Clone, Copy, Debug, PartialEq, Eq, Structural)]
pub enum Command {
    /// The line holds no token.
    Empty,
    /// Leave the viewer.
    Quit,
    /// Go one page forward.
    NextPage,
    /// Go this many pages forward.
    PagesForward(u64),
    /// Go this many pages back.
    PagesBack(u64),
    /// `page +N` where `N` is no number.
    BadForwardCount,
    /// `page -N` where `N` is no number.
    BadBackCount,
    /// `page` with an argument of another shape, or with more than one.
    BadPageFormat,
    /// Go to this offset.
    Goto(u64),
    /// The first token is neither a command nor an offset.
    BadOffset(ParseError),
}

/// The word that leaves the viewer.
pub open spec fn quit_word() -> Seq<char> {
    seq!['q']
}

/// The word that moves by pages.
pub open spec fn page_word() -> Seq<char> {
    seq!['p', 'a', 'g', 'e']
}

/// What the argument of `page` asks for.
pub open spec fn page_command(argument: Seq<char>) -> Command {
    if argument.len() > 0 && argument[0] == '+' {
        match parse_digits(argument.skip(1), 10) {
            Ok(pages) => Command::PagesForward(pages),
            Err(_) => Command::BadForwardCount,
        }
    } else if argument.len() > 0 && argument[0] == '-' {
        match parse_digits(argument.skip(1), 10) {
            Ok(pages) => Command::PagesBack(pages),
            Err(_) => Command::BadBackCount,
        }
    } else {
        Command::BadPageFormat
    }
}

/// What the tokens of a command line ask for.
pub open spec fn command_of(words: Seq<Seq<char>>) -> Command {
    if words.len() == 0 {
        Command::Empty
    } else if same_word(words[0], quit_word()) {
        Command::Quit
    } else if same_word(words[0], page_word()) {
        if words.len() == 1 {
            Command::NextPage
        } else if words.len() == 2 {
            page_command(words[1])
        } else {
            Command::BadPageFormat
        }
    } else {
        match parse_offset(words[0]) {
            Ok(offset) => Command::Goto(offset),
            Err(e) => Command::BadOffset(e),
        }
    }
}

/// What a command line asks for.
pub open spec fn command_in(line: Seq<char>) -> Command {
    command_of(tokens(line))
}

/// The first index at or after `from` that holds no whitespace.
pub fn after_spaces(line: &Vec<char>, from: usize) -> (at: usize)
    requires
        from <= line.len(),
    ensures
        at == skip_spaces(line@, from as int),
        from <= at <= line.len(),
{
    let mut at: usize = from;
    while at < line.len() && is_whitespace_char(line[at])
        invariant
            from <= at <= line.len(),
            skip_spaces(line@, from as int) == skip_spaces(line@, at as int),
        decreases line.len() - at,
    {
        at += 1;
    }
    at
}

/// The first index at or after `from` that holds whitespace.
pub fn after_word(line: &Vec<char>, from: usize) -> (at: usize)
    requires
        from <= line.len(),
    ensures
        at == skip_word(line@, from as int),
        from <= at <= line.len(),
{
    let mut at: usize = from;
    while at < line.len() && !is_whitespace_char(line[at])
        invariant
            from <= at <= line.len(),
            skip_word(line@, from as int) == skip_word(line@, at as int),
        decreases line.len() - at,
    {
        at += 1;
    }
    at
}

/// Reads the argument of `page` in `line[start..end]`.
pub fn parse_page_argument(line: &Vec<char>, start: usize, end: usize) -> (c: Command)
    requires
        start <= end <= line.len(),
    ensures
        c == page_command(line@.subrange(start as int, end as int)),
{
    let ghost argument = line@.subrange(start as int, end as int);
    if start < end && line[start] == '+' {
        assert(argument[0] == line@[start as int]);
        assert(argument.skip(1) == line@.subrange(start + 1, end as int));
        match parse_number(line, start + 1, end, 10) {
            Ok(pages) => Command::PagesForward(pages),
            Err(_) => Command::BadForwardCount,
        }
    } else if start < end && line[start] == '-' {
        assert(argument[0] == line@[start as int]);
        assert(argument.skip(1) == line@.subrange(start + 1, end as int));
        match parse_number(line, start + 1, end, 10) {
            Ok(pages) => Command::PagesBack(pages),
            Err(_) => Command::BadBackCount,
        }
    } else {
        if start < end {
            assert(argument[0] == line@[start as int]);
        }
        Command::BadPageFormat
    }
}

/// Reads a command line.
pub fn parse_command(line: &Vec<char>) -> (c: Command)
    ensures
        c == command_in(line@),
{
    let ghost s = line@;
    let len: usize = line.len();
    let first: usize = after_spaces(line, 0);
    if first == len {
        return Command::Empty;
    }
    let first_end: usize = after_word(line, first);
    let second: usize = after_spaces(line, first_end);
    proof {
        lemma_skip_spaces(s, 0);
        lemma_skip_word(s, first as int);
        reveal_strlit("q");
        reveal_strlit("page");
        assert("q"@ =~= quit_word());
        assert("page"@ =~= page_word());
        assert(tokens(s) == seq![s.subrange(first as int, first_end as int)] + tokens_from(
            s,
            first_end as int,
        ));
        assert(tokens(s)[0] == s.subrange(first as int, first_end as int));
    }
    if is_word(line, first, first_end, "q") {
        return Command::Quit;
    }
    if is_word(line, first, first_end, "page") {
        if second == len {
            assert(tokens_from(s, first_end as int).len() == 0);
            return Command::NextPage;
        }
        let second_end: usize = after_word(line, second);
        let third: usize = after_spaces(line, second_end);
        proof {
            lemma_skip_word(s, second as int);
            assert(tokens_from(s, first_end as int) == seq![
                s.subrange(second as int, second_end as int),
            ] + tokens_from(s, second_end as int));
            assert(tokens(s)[1] == s.subrange(second as int, second_end as int));
        }
        if third == len {
            assert(tokens_from(s, second_end as int).len() == 0);
            return parse_page_argument(line, second, second_end);
        }
        proof {
            lemma_skip_word(s, third as int);
            assert(tokens_from(s, second_end as int).len() >= 1);
        }
        return Command::BadPageFormat;
    }
    match parse_offset_in(line, first, first_end) {
        Ok(offset) => Command::Goto(offset),
        Err(e) => Command::BadOffset(e),
    }
}

} // verus!
