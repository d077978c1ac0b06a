//! The texts of the status line, the footer and the title.

use vstd::prelude::*;
use crate::format::{decimal, push_decimal, push_upper_hex, upper_hex};
use crate::offset::ParseError;
use crate::text::push_char;

verus! {

/// The status after a step by a line or a page.
pub open spec fn moved_text(target: u64) -> Seq<char> {
    "Moved to 0x"@ + upper_hex(target as nat)
}

/// The status after `page`.
pub open spec fn next_page_text(target: u64) -> Seq<char> {
    "Moved to next page at 0x"@ + upper_hex(target as nat)
}

/// The status after `page +N` (`sign` is `+`) or `page -N` (`sign` is `-`).
pub open spec fn pages_text(sign: char, pages: u64, target: u64) -> Seq<char> {
    "Moved "@.push(sign) + decimal(pages as nat) + " pages to 0x"@ + upper_hex(target as nat)
}

/// The status after a jump to an offset.
pub open spec fn jumped_text(target: u64) -> Seq<char> {
    "Jumped to offset 0x"@ + upper_hex(target as nat)
}

/// The status of a read that found nothing to fetch.
pub open spec fn end_of_file_text(offset: u64) -> Seq<char> {
    "End of file reached at 0x"@ + upper_hex(offset as nat)
}

/// The status of a read that failed.
pub open spec fn read_error_text(reason: Seq<char>) -> Seq<char> {
    "File read error: "@ + reason
}

/// The status of a fresh session.
pub open spec fn opened_text(path: Seq<char>, file_size: u64) -> Seq<char> {
    "File: '"@ + path + "' (Size: "@ + decimal(file_size as nat) + " bytes)"@
}

/// The footer of normal mode where no status is shown.
pub open spec fn idle_text(offset: u64) -> Seq<char> {
    "Offset: 0x"@ + upper_hex(offset as nat)
        + " | Press ':' for command, 'q' to quit, '?' for help"@
}

/// The title of the frame.
pub open spec fn title_text(program: Seq<char>, path: Seq<char>, file_size: u64) -> Seq<char> {
    program + " - Hex Viewer - "@ + path + " (Size: "@ + decimal(file_size as nat) + " bytes)"@
}

/// The status for a first token that is neither a command nor an offset.
pub open spec fn bad_offset_text(e: ParseError) -> Seq<char> {
    "Error parsing offset: "@ + e.reason()
}

/// `prefix` and then `n` in upper-case hexadecimal.
pub fn with_hex(prefix: &str, n: u64) -> (s: String)
    ensures
        s@ == prefix@ + upper_hex(n as nat),
{
    let mut s: String = String::from_str(prefix);
    push_upper_hex(&mut s, n);
    s
}

/// The status after a step by a line or a page.
pub fn moved_message(target: u64) -> (s: String)
    ensures
        s@ == moved_text(target),
{
    with_hex("Moved to 0x", target)
}

/// The status after `page`.
pub fn next_page_message(target: u64) -> (s: String)
    ensures
        s@ == next_page_text(target),
{
    with_hex("Moved to next page at 0x", target)
}

/// The status after `page +N` or `page -N`.
pub fn pages_message(sign: char, pages: u64, target: u64) -> (s: String)
    ensures
        s@ == pages_text(sign, pages, target),
{
    let mut s: String = String::from_str("Moved ");
    push_char(&mut s, sign);
    push_decimal(&mut s, pages);
    s.append(" pages to 0x");
    push_upper_hex(&mut s, target);
    s
}

/// The status after a jump to an offset.
pub fn jumped_message(target: u64) -> (s: String)
    ensures
        s@ == jumped_text(target),
{
    with_hex("Jumped to offset 0x", target)
}

/// The status of a read that found nothing to fetch.
pub fn end_of_file_message(offset: u64) -> (s: String)
    ensures
        s@ == end_of_file_text(offset),
{
    with_hex("End of file reached at 0x", offset)
}

/// The status of a read that failed.
pub fn read_error_message(reason: &str) -> (s: String)
    ensures
        s@ == read_error_text(reason@),
{
    let mut s: String = String::from_str("File read error: ");
    s.append(reason);
    s
}

/// The status for a first token that is neither a command nor an offset.
pub fn bad_offset_message(e: ParseError) -> (s: String)
    ensures
        s@ == bad_offset_text(e),
{
    let mut s: String = String::from_str("Error parsing offset: ");
    let reason: String = e.message();
    s.append(reason.as_str());
    s
}

/// The status of a fresh session.
pub fn opened_message(path: &str, file_size: u64) -> (s: String)
    ensures
        s@ == opened_text(path@, file_size),
{
    let mut s: String = String::from_str("File: '");
    s.append(path);
    s.append("' (Size: ");
    push_decimal(&mut s, file_size);
    s.append(" bytes)");
    s
}

/// The footer of normal mode where no status is shown.
pub fn idle_message(offset: u64) -> (s: String)
    ensures
        s@ == idle_text(offset),
{
    let mut s: String = with_hex("Offset: 0x", offset);
    s.append(" | Press ':' for command, 'q' to quit, '?' for help");
    s
}

/// The title of the frame.
pub fn title(program: &str, path: &str, file_size: u64) -> (s: String)
    ensures
        s@ == title_text(program@, path@, file_size),
{
    let mut s: String = String::from_str(program);
    s.append(" - Hex Viewer - ");
    s.append(path);
    s.append(" (Size: ");
    push_decimal(&mut s, file_size);
    s.append(" bytes)");
    s
}

} // verus!
