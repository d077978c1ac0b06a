//! Characters and text: character classes, building strings, and splitting
//! a line into whitespace-separated tokens.

use vstd::prelude::*;

verus! {

/// Whether `c` is white space, as Unicode defines it.
pub open spec fn is_whitespace(c: char) -> bool {
    let n = c as int;
    ||| 0x09 <= n <= 0x0D
    ||| n == 0x20
    ||| n == 0x85
    ||| n == 0xA0
    ||| n == 0x1680
    ||| 0x2000 <= n <= 0x200A
    ||| n == 0x2028
    ||| n == 0x2029
    ||| n == 0x202F
    ||| n == 0x205F
    ||| n == 0x3000
}

/// The ASCII lower-case form of `c`; characters other than `A`..`Z` stay.
pub open spec fn ascii_lower(c: char) -> char {
    if 'A' <= c && c <= 'Z' {
        ((c as int) + 32) as char
    } else {
        c
    }
}

/// Whether `token` and `word` are equal up to ASCII case.
pub open spec fn same_word(token: Seq<char>, word: Seq<char>) -> bool {
    token.map_values(|c: char| ascii_lower(c)) == word.map_values(|c: char| ascii_lower(c))
}

/// The first index at or after `i` that holds no whitespace, or the length of `s`.
pub open spec fn skip_spaces(s: Seq<char>, i: int) -> int
    decreases s.len() - i,
{
    if 0 <= i < s.len() && is_whitespace(s[i]) {
        skip_spaces(s, i + 1)
    } else {
        i
    }
}

/// The first index at or after `i` that holds whitespace, or the length of `s`.
pub open spec fn skip_word(s: Seq<char>, i: int) -> int
    decreases s.len() - i,
{
    if 0 <= i < s.len() && !is_whitespace(s[i]) {
        skip_word(s, i + 1)
    } else {
        i
    }
}

/// The whitespace-separated tokens of `s` that begin at or after `i`, in order.
pub open spec fn tokens_from(s: Seq<char>, i: int) -> Seq<Seq<char>>
    decreases s.len() - i,
    via tokens_from_decreases
{
    let start = skip_spaces(s, i);
    if 0 <= i && start < s.len() {
        let end = skip_word(s, start);
        seq![s.subrange(start, end)] + tokens_from(s, end)
    } else {
        Seq::empty()
    }
}

#[via_fn]
proof fn tokens_from_decreases(s: Seq<char>, i: int) {
    let start = skip_spaces(s, i);
    if 0 <= i && start < s.len() {
        lemma_skip_spaces(s, i);
        lemma_skip_word(s, start);
    }
}

/// The maximal runs of non-whitespace characters of `s`, in order.
pub open spec fn tokens(s: Seq<char>) -> Seq<Seq<char>> {
    tokens_from(s, 0)
}

/// `skip_spaces` stops inside the line, behind whitespace only, at a
/// character that is none.
pub proof fn lemma_skip_spaces(s: Seq<char>, i: int)
    requires
        0 <= i <= s.len(),
    ensures
        i <= skip_spaces(s, i) <= s.len(),
        forall|j: int| i <= j < skip_spaces(s, i) ==> is_whitespace(#[trigger] s[j]),
        skip_spaces(s, i) < s.len() ==> !is_whitespace(s[skip_spaces(s, i)]),
    decreases s.len() - i,
{
    if i < s.len() && is_whitespace(s[i]) {
        lemma_skip_spaces(s, i + 1);
    }
}

/// `skip_word` stops inside the line, behind non-whitespace only, at
/// whitespace or at the end.
pub proof fn lemma_skip_word(s: Seq<char>, i: int)
    requires
        0 <= i <= s.len(),
    ensures
        i <= skip_word(s, i) <= s.len(),
        i < s.len() && !is_whitespace(s[i]) ==> i < skip_word(s, i),
        forall|j: int| i <= j < skip_word(s, i) ==> !is_whitespace(#[trigger] s[j]),
        skip_word(s, i) < s.len() ==> is_whitespace(s[skip_word(s, i)]),
    decreases s.len() - i,
{
    if i < s.len() && !is_whitespace(s[i]) {
        lemma_skip_word(s, i + 1);
    }
}

/// Tells whether `c` is whitespace.
pub fn is_whitespace_char(c: char) -> (b: bool)
    ensures
        b == is_whitespace(c),
{
    let n: u32 = c as u32;
    (0x09 <= n && n <= 0x0D) || n == 0x20 || n == 0x85 || n == 0xA0 || n == 0x1680 || (0x2000 <= n
        && n <= 0x200A) || n == 0x2028 || n == 0x2029 || n == 0x202F || n == 0x205F || n == 0x3000
}

/// The ASCII lower-case form of `c`.
pub fn to_ascii_lower(c: char) -> (r: char)
    ensures
        r == ascii_lower(c),
{
    if c >= 'A' && c <= 'Z' {
        let n: u8 = c as u8;
        (n + 32) as char
    } else {
        c
    }
}

/// Appends `c` to `s` by `String::push` of the standard library. Trusted,
/// not proved: afterwards `s` holds the characters that it held before, in
/// their order, and then `c`.
#[verifier::external_body]
pub(crate) fn push_char(s: &mut String, c: char)
    ensures
        final(s)@ == old(s)@.push(c),
{
    s.push(c)
}

/// Appends the characters of `chars` to `s`.
pub fn push_chars(s: &mut String, chars: &Vec<char>)
    ensures
        final(s)@ == old(s)@ + chars@,
{
    let mut i: usize = 0;
    while i < chars.len()
        invariant
            i <= chars.len(),
            s@ == old(s)@ + chars@.take(i as int),
        decreases chars.len() - i,
    {
        push_char(s, chars[i]);
        i += 1;
    }
}

/// The characters of `s`.
pub fn chars_of(s: &str) -> (v: Vec<char>)
    ensures
        v@ == s@,
{
    let mut v: Vec<char> = Vec::new();
    for c in it: s.chars()
        invariant
            v@ == it.seq().take(it.index() as int),
            it.seq() == s@,
    {
        v.push(c);
    }
    v
}

/// The string made of `chars`.
pub fn string_of(chars: &Vec<char>) -> (s: String)
    ensures
        s@ == chars@,
{
    let mut s: String = String::new();
    push_chars(&mut s, chars);
    s
}

/// Whether `line[start..end]` is `word` up to ASCII case.
pub fn is_word(line: &Vec<char>, start: usize, end: usize, word: &str) -> (b: bool)
    requires
        start <= end <= line.len(),
    ensures
        b == same_word(line@.subrange(start as int, end as int), word@),
{
    let w: Vec<char> = chars_of(word);
    let ghost token = line@.subrange(start as int, end as int);
    let ghost lt = token.map_values(|c: char| ascii_lower(c));
    let ghost lw = word@.map_values(|c: char| ascii_lower(c));
    if w.len() != end - start {
        assert(lt.len() != lw.len());
        return false;
    }
    let mut i: usize = 0;
    while i < w.len()
        invariant
            i <= w.len(),
            w.len() == end - start,
            start <= end <= line.len(),
            w@ == word@,
            token == line@.subrange(start as int, end as int),
            lt == token.map_values(|c: char| ascii_lower(c)),
            lw == word@.map_values(|c: char| ascii_lower(c)),
            forall|j: int| 0 <= j < i ==> lt[j] == lw[j],
        decreases w.len() - i,
    {
        if to_ascii_lower(line[start + i]) != to_ascii_lower(w[i]) {
            assert(lt[i as int] != lw[i as int]);
            return false;
        }
        i += 1;
    }
    assert(lt =~= lw);
    true
}

} // verus!
