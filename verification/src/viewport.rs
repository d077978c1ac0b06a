//! The window of file bytes behind one frame: how much to fetch for a
//! viewport, and the bytes that were fetched, cut into rows.

use vstd::prelude::*;
use crate::messages::{end_of_file_message, end_of_file_text};
use crate::render::{format_row, row_text};

verus! {

/// Rows of the viewport that hold no bytes.
pub const RESERVED_ROWS: u16 = 4;

/// The lines of a viewport that show bytes.
pub open spec fn visible_lines(viewport_height: u16) -> nat {
    if viewport_height > RESERVED_ROWS {
        (viewport_height - RESERVED_ROWS) as nat
    } else {
        0
    }
}

/// The bytes that fill a viewport, held to what `usize` can count.
pub open spec fn requested_bytes(bytes_per_line: usize, viewport_height: u16) -> usize {
    let full = bytes_per_line * visible_lines(viewport_height);
    if full > usize::MAX {
        usize::MAX
    } else {
        full as usize
    }
}

/// The bytes of the file at and behind `offset`.
pub open spec fn available_bytes(offset: u64, file_size: u64) -> nat {
    if offset >= file_size {
        0
    } else {
        (file_size - offset) as nat
    }
}

/// The bytes to fetch: what fills the viewport, or what is left of the file.
pub open spec fn bytes_to_read(
    offset: u64,
    file_size: u64,
    bytes_per_line: usize,
    viewport_height: u16,
) -> usize {
    let requested = requested_bytes(bytes_per_line, viewport_height);
    if requested <= available_bytes(offset, file_size) {
        requested
    } else {
        available_bytes(offset, file_size) as usize
    }
}

/// What to fetch for one frame.
#[derive(Clone, Copy, Debug, PartialEq, Eq, Structural)]
pub struct ReadPlan {
    /// Where in the file the window begins.
    pub offset: u64,
    /// The bytes that fill the viewport.
    pub requested: usize,
    /// The bytes to fetch; zero at and behind the end of the file.
    pub to_read: usize,
}

impl ReadPlan {
    /// The status that goes with the plan: none where there is something
    /// to fetch, and else that the end of the file is reached.
    pub open spec fn status_text(self) -> Option<Seq<char>> {
        if self.to_read == 0 {
            Some(end_of_file_text(self.offset))
        } else {
            None
        }
    }

    /// The status that goes with the plan.
    pub fn status(&self) -> (status: Option<String>)
        ensures
            status is Some <==> self.to_read == 0,
            match status {
                Some(text) => self.status_text() == Some(text@),
                None => self.status_text() is None,
            },
    {
        if self.to_read == 0 {
            Some(end_of_file_message(self.offset))
        } else {
            None
        }
    }
}

/// Plans the read for a viewport of the given height at `offset`.
pub fn plan_read(offset: u64, file_size: u64, bytes_per_line: usize, viewport_height: u16) -> (plan:
    ReadPlan)
    ensures
        plan.offset == offset,
        plan.requested == requested_bytes(bytes_per_line, viewport_height),
        plan.to_read == bytes_to_read(offset, file_size, bytes_per_line, viewport_height),
        bytes_per_line * visible_lines(viewport_height) <= usize::MAX ==> plan.requested
            == bytes_per_line * visible_lines(viewport_height),
        plan.to_read <= plan.requested,
        plan.to_read <= available_bytes(offset, file_size),
        offset >= file_size ==> plan.to_read == 0,
{
    let lines: u16 = viewport_height.saturating_sub(RESERVED_ROWS);
    let requested: usize = match bytes_per_line.checked_mul(lines as usize) {
        Some(n) => n,
        None => usize::MAX,
    };
    let available: u64 = file_size.saturating_sub(offset);
    let to_read: usize = if requested as u64 <= available {
        requested
    } else {
        available as usize
    };
    ReadPlan { offset, requested, to_read }
}

/// A window of file bytes: where it begins, and what it holds.
pub struct Window {
    pub offset: u64,
    pub bytes: Seq<u8>,
}

/// The rows that `len` bytes fill, the last one perhaps in part.
pub open spec fn rows_for(len: nat, bytes_per_line: nat) -> nat {
    if bytes_per_line == 0 {
        0
    } else {
        ((len + bytes_per_line - 1) / (bytes_per_line as int)) as nat
    }
}

impl Window {
    /// The rows that the window fills, the last one perhaps in part.
    pub open spec fn row_count(self, bytes_per_line: nat) -> nat {
        rows_for(self.bytes.len(), bytes_per_line)
    }

    /// The bytes of row `index`.
    pub open spec fn row_bytes(self, bytes_per_line: nat, index: nat) -> Seq<u8> {
        let start: int = (index * bytes_per_line) as int;
        let end: int = if start + bytes_per_line <= self.bytes.len() {
            start + bytes_per_line
        } else {
            self.bytes.len() as int
        };
        self.bytes.subrange(start, end)
    }

    /// Row `index` as text.
    pub open spec fn row(self, bytes_per_line: nat, index: nat) -> Seq<char> {
        row_text(
            self.offset as nat + index * bytes_per_line,
            self.row_bytes(bytes_per_line, index),
            bytes_per_line,
        )
    }
}

/// The rows cover the bytes, and none of them is empty.
pub proof fn lemma_rows_for(len: nat, bytes_per_line: nat)
    requires
        bytes_per_line >= 1,
    ensures
        rows_for(len, bytes_per_line) * bytes_per_line >= len,
        len > 0 ==> rows_for(len, bytes_per_line) >= 1 && (rows_for(len, bytes_per_line) - 1)
            * bytes_per_line < len,
        len == 0 ==> rows_for(len, bytes_per_line) == 0,
{
    let x: int = len + bytes_per_line - 1;
    let d: int = bytes_per_line as int;
    vstd::arithmetic::div_mod::lemma_fundamental_div_mod(x, d);
    vstd::arithmetic::div_mod::lemma_mod_bound(x, d);
    let q = x / d;
    assert(d * q == q * d) by (nonlinear_arith);
    assert((q - 1) * d == q * d - d) by (nonlinear_arith);
    if len == 0 {
        vstd::arithmetic::div_mod::lemma_basic_div(x, d);
    }
    if q < 0 {
        assert(q * d <= -d) by (nonlinear_arith)
            requires
                q <= -1,
                d >= 1,
        ;
    }
}

/// A row begins inside the bytes exactly if its index is below the count
/// of rows.
pub proof fn lemma_row_starts(len: nat, bytes_per_line: nat, index: nat)
    requires
        bytes_per_line >= 1,
    ensures
        index * bytes_per_line < len <==> index < rows_for(len, bytes_per_line),
{
    lemma_rows_for(len, bytes_per_line);
    let rows = rows_for(len, bytes_per_line);
    if index < rows {
        assert(index * bytes_per_line <= (rows - 1) * bytes_per_line) by (nonlinear_arith)
            requires
                index <= rows - 1,
                bytes_per_line >= 1,
        ;
    } else {
        assert(index * bytes_per_line >= rows * bytes_per_line) by (nonlinear_arith)
            requires
                index >= rows,
                bytes_per_line >= 1,
        ;
    }
}

/// Rounding up, written with a division that rounds down.
pub proof fn lemma_ceiling(len: nat, bytes_per_line: nat)
    requires
        bytes_per_line >= 1,
        len >= 1,
    ensures
        rows_for(len, bytes_per_line) == (len - 1) / (bytes_per_line as int) + 1,
{
    let d: int = bytes_per_line as int;
    vstd::arithmetic::div_mod::lemma_div_plus_one(len - 1, d);
    lemma_rows_for(len, bytes_per_line);
}

/// The bytes fetched for one frame.
pub struct ViewportBuffer {
    offset: u64,
    bytes: Vec<u8>,
}

impl View for ViewportBuffer {
    type V = Window;

    closed spec fn view(&self) -> Window {
        Window { offset: self.offset, bytes: self.bytes@ }
    }
}

/// How many of `len` bytes handed in a window keeps: no more than were
/// asked for, and none behind the last offset that `u64` can name.
pub open spec fn kept_bytes(plan: ReadPlan, len: nat) -> nat {
    let within = if len <= plan.to_read {
        len
    } else {
        plan.to_read as nat
    };
    if plan.offset + within <= u64::MAX {
        within
    } else {
        (u64::MAX - plan.offset) as nat
    }
}

impl ViewportBuffer {
    #[verifier::type_invariant]
    spec fn in_range(&self) -> bool {
        self.offset + self.bytes@.len() <= u64::MAX
    }

    /// The window for what a read returned: `data` may be shorter than the
    /// plan asked for, and is cut where it is longer.
    pub fn from_read(plan: &ReadPlan, data: Vec<u8>) -> (buffer: ViewportBuffer)
        ensures
            buffer@.offset == plan.offset,
            buffer@.bytes == data@.take(kept_bytes(*plan, data@.len()) as int),
            data@.len() <= plan.to_read && plan.offset + plan.to_read <= u64::MAX ==> buffer@.bytes
                == data@,
            buffer@.offset + buffer@.bytes.len() <= u64::MAX,
    {
        let mut bytes: Vec<u8> = data;
        let room: u64 = u64::MAX - plan.offset;
        let mut keep: usize = if bytes.len() <= plan.to_read {
            bytes.len()
        } else {
            plan.to_read
        };
        if keep as u64 > room {
            keep = room as usize;
        }
        bytes.truncate(keep);
        assert(bytes@ == data@.take(keep as int));
        ViewportBuffer { offset: plan.offset, bytes }
    }

    /// Where in the file the window begins.
    pub fn offset(&self) -> (r: u64)
        ensures
            r == self@.offset,
    {
        self.offset
    }

    /// The bytes of the window.
    pub fn bytes(&self) -> (r: &Vec<u8>)
        ensures
            r@ == self@.bytes,
    {
        &self.bytes
    }

    /// How many bytes the window holds.
    pub fn bytes_read(&self) -> (r: usize)
        ensures
            r == self@.bytes.len(),
    {
        self.bytes.len()
    }

    /// How many rows the window fills.
    pub fn row_count(&self, bytes_per_line: usize) -> (r: usize)
        requires
            bytes_per_line >= 1,
        ensures
            r == self@.row_count(bytes_per_line as nat),
    {
        let len: usize = self.bytes.len();
        proof {
            lemma_rows_for(self.bytes@.len(), bytes_per_line as nat);
        }
        if len == 0 {
            0
        } else {
            let r: usize = (len - 1) / bytes_per_line + 1;
            proof {
                lemma_ceiling(len as nat, bytes_per_line as nat);
            }
            r
        }
    }

    /// Row `index` as text, if the window has such a row.
    pub fn row(&self, index: usize, bytes_per_line: usize) -> (r: Option<String>)
        requires
            bytes_per_line >= 1,
        ensures
            r is Some <==> index < self@.row_count(bytes_per_line as nat),
            r is Some ==> r->0@ == self@.row(bytes_per_line as nat, index as nat),
    {
        proof {
            use_type_invariant(self);
            lemma_rows_for(self.bytes@.len(), bytes_per_line as nat);
            lemma_row_starts(self.bytes@.len(), bytes_per_line as nat, index as nat);
        }
        let len: usize = self.bytes.len();
        match index.checked_mul(bytes_per_line) {
            None => None,
            Some(start) => {
                if start >= len {
                    None
                } else {
                    let end: usize = if len - start > bytes_per_line {
                        start + bytes_per_line
                    } else {
                        len
                    };
                    let slice: &[u8] = self.bytes.as_slice();
                    let line: String = format_row(
                        self.offset + start as u64,
                        &slice[start..end],
                        bytes_per_line,
                    );
                    Some(line)
                }
            },
        }
    }

    /// All rows of the window as text, in order.
    pub fn rows(&self, bytes_per_line: usize) -> (lines: Vec<String>)
        requires
            bytes_per_line >= 1,
        ensures
            lines@.len() == self@.row_count(bytes_per_line as nat),
            forall|i: int|
                0 <= i < lines@.len() ==> (#[trigger] lines@[i])@ == self@.row(
                    bytes_per_line as nat,
                    i as nat,
                ),
    {
        proof {
            use_type_invariant(self);
            lemma_rows_for(self.bytes@.len(), bytes_per_line as nat);
        }
        let len: usize = self.bytes.len();
        let slice: &[u8] = self.bytes.as_slice();
        let mut lines: Vec<String> = Vec::new();
        let mut start: usize = 0;
        assert(lines@.len() * bytes_per_line == 0) by (nonlinear_arith)
            requires
                lines@.len() == 0,
        ;
        while start < len
            invariant
                bytes_per_line >= 1,
                len == self.bytes@.len(),
                slice@ == self.bytes@,
                self.offset + len <= u64::MAX,
                start <= len,
                start == len || start == lines@.len() * bytes_per_line,
                start == len ==> lines@.len() * bytes_per_line >= len,
                lines@.len() <= self@.row_count(bytes_per_line as nat),
                self@.row_count(bytes_per_line as nat) * bytes_per_line >= len,
                len > 0 ==> (self@.row_count(bytes_per_line as nat) - 1) * bytes_per_line < len,
                forall|i: int|
                    0 <= i < lines@.len() ==> (#[trigger] lines@[i])@ == self@.row(
                        bytes_per_line as nat,
                        i as nat,
                    ),
            decreases len - start,
        {
            let ghost index = lines@.len();
            proof {
                lemma_row_starts(self.bytes@.len(), bytes_per_line as nat, index);
            }
            let end: usize = if len - start > bytes_per_line {
                start + bytes_per_line
            } else {
                len
            };
            let line: String = format_row(
                self.offset + start as u64,
                &slice[start..end],
                bytes_per_line,
            );
            lines.push(line);
            proof {
                assert((index + 1) * bytes_per_line == index * bytes_per_line + bytes_per_line)
                    by (nonlinear_arith);
            }
            start = end;
        }
        proof {
            let rows = self@.row_count(bytes_per_line as nat);
            let made = lines@.len();
            if made < rows {
                assert(made * bytes_per_line <= (rows - 1) * bytes_per_line) by (nonlinear_arith)
                    requires
                        made <= rows - 1,
                        bytes_per_line >= 1,
                ;
            }
        }
        lines
    }
}

} // verus!
