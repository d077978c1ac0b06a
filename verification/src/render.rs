//! Rows of the dump: an offset, the bytes in hexadecimal, and the same
//! bytes as ASCII.

use vstd::prelude::*;
use crate::format::{padded_hex, push_padded_hex};
use crate::text::push_char;

verus! {

/// What stands between the offset and the hexadecimal column.
pub open spec fn offset_mark() -> Seq<char> {
    seq![':', ' ']
}

/// What stands between the hexadecimal column and the ASCII column.
pub open spec fn separator() -> Seq<char> {
    seq![' ', '|', ' ']
}

/// A byte in the hexadecimal column: two digits and a blank.
pub open spec fn hex_cell(b: u8) -> Seq<char> {
    padded_hex(b as nat, 2).push(' ')
}

/// A column of the hexadecimal part that holds no byte.
pub open spec fn blank_cell() -> Seq<char> {
    seq![' ', ' ', ' ']
}

/// The first `columns` cells of the hexadecimal part of a row.
pub open spec fn hex_column(row: Seq<u8>, columns: nat) -> Seq<char>
    decreases columns,
{
    if columns == 0 {
        Seq::empty()
    } else {
        hex_column(row, (columns - 1) as nat) + (if columns - 1 < row.len() {
            hex_cell(row[columns - 1])
        } else {
            blank_cell()
        })
    }
}

/// A byte in the ASCII column: itself if printable, a dot if not.
pub open spec fn ascii_char(b: u8) -> char {
    if 32 <= b <= 126 {
        b as char
    } else {
        '.'
    }
}

/// The ASCII part of a row: one character for each byte.
pub open spec fn ascii_column(row: Seq<u8>) -> Seq<char> {
    Seq::new(row.len(), |i: int| ascii_char(row[i]))
}

/// A whole row: the offset in at least eight digits, the hexadecimal part
/// in `bytes_per_line` cells, and the ASCII part.
pub open spec fn row_text(offset: nat, row: Seq<u8>, bytes_per_line: nat) -> Seq<char> {
    padded_hex(offset, 8) + offset_mark() + hex_column(row, bytes_per_line) + separator()
        + ascii_column(row)
}

/// The character for a byte in the ASCII column.
pub fn ascii_of(b: u8) -> (c: char)
    ensures
        c == ascii_char(b),
{
    if b >= 32 && b <= 126 {
        b as char
    } else {
        '.'
    }
}

/// Appends the hexadecimal part of a row to `s`.
pub fn push_hex_column(s: &mut String, row: &[u8], bytes_per_line: usize)
    ensures
        final(s)@ == old(s)@ + hex_column(row@, bytes_per_line as nat),
{
    let mut j: usize = 0;
    while j < bytes_per_line
        invariant
            j <= bytes_per_line,
            s@ == old(s)@ + hex_column(row@, j as nat),
        decreases bytes_per_line - j,
    {
        let ghost before = s@;
        if j < row.len() {
            push_padded_hex(s, row[j] as u64, 2);
            push_char(s, ' ');
            assert(s@ == before + hex_cell(row@[j as int]));
        } else {
            push_char(s, ' ');
            push_char(s, ' ');
            push_char(s, ' ');
            assert(s@ == before + blank_cell());
        }
        j += 1;
        assert(s@ == old(s)@ + hex_column(row@, j as nat));
    }
}

/// Appends the ASCII part of a row to `s`.
pub fn push_ascii_column(s: &mut String, row: &[u8])
    ensures
        final(s)@ == old(s)@ + ascii_column(row@),
{
    let mut k: usize = 0;
    while k < row.len()
        invariant
            k <= row.len(),
            s@ == old(s)@ + ascii_column(row@).take(k as int),
        decreases row.len() - k,
    {
        push_char(s, ascii_of(row[k]));
        assert(ascii_column(row@).take(k as int).push(ascii_char(row@[k as int]))
            == ascii_column(row@).take(k + 1));
        k += 1;
    }
    assert(ascii_column(row@).take(k as int) == ascii_column(row@));
}

/// The hexadecimal part of a row.
pub fn hex_part(row: &[u8], bytes_per_line: usize) -> (s: String)
    ensures
        s@ == hex_column(row@, bytes_per_line as nat),
{
    let mut s: String = String::new();
    push_hex_column(&mut s, row, bytes_per_line);
    assert(s@ == Seq::<char>::empty() + hex_column(row@, bytes_per_line as nat));
    s
}

/// The ASCII part of a row.
pub fn ascii_part(row: &[u8]) -> (s: String)
    ensures
        s@ == ascii_column(row@),
{
    let mut s: String = String::new();
    push_ascii_column(&mut s, row);
    assert(s@ == Seq::<char>::empty() + ascii_column(row@));
    s
}

/// A whole row of the dump.
pub fn format_row(offset: u64, row: &[u8], bytes_per_line: usize) -> (s: String)
    ensures
        s@ == row_text(offset as nat, row@, bytes_per_line as nat),
{
    let mut s: String = String::new();
    push_padded_hex(&mut s, offset, 8);
    push_char(&mut s, ':');
    push_char(&mut s, ' ');
    assert(s@ == padded_hex(offset as nat, 8) + offset_mark());
    push_hex_column(&mut s, row, bytes_per_line);
    let ghost head = s@;
    push_char(&mut s, ' ');
    push_char(&mut s, '|');
    push_char(&mut s, ' ');
    assert(s@ == head + separator());
    push_ascii_column(&mut s, row);
    s
}

} // verus!
