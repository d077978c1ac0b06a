//! What holds of every session, stated over the model of the view state.

use vstd::prelude::*;
use crate::command::Command;
use crate::format::{decimal, digit_char, digits, lemma_quotient_smaller, upper_hex};
use crate::messages::end_of_file_text;
use crate::model::{clamp_offset, in_file, saturating_difference, Key, Mode, ViewModel};
use crate::offset::{all_digits, digit_value, number_value, parse_digits, parse_offset, ParseError};
use crate::viewport::{bytes_to_read, visible_lines};

verus! {

/// One step of a session.
pub enum Step {
    /// A key is pressed.
    Press(Key),
    /// A command is executed.
    Execute(Command),
    /// The read for a frame is planned, for a viewport of this height.
    Frame(u16),
}

/// A step and the time it comes at.
pub struct Event {
    pub step: Step,
    pub now: u64,
}

/// The state after one step.
pub open spec fn after_step(state: ViewModel, event: Event) -> ViewModel {
    match event.step {
        Step::Press(key) => state.on_key(key, event.now),
        Step::Execute(command) => state.run(command, event.now),
        Step::Frame(viewport_height) => state.frame(viewport_height, event.now),
    }
}

/// The state after a sequence of steps.
pub open spec fn after_steps(state: ViewModel, events: Seq<Event>) -> ViewModel
    decreases events.len(),
{
    if events.len() == 0 {
        state
    } else {
        after_step(after_steps(state, events.drop_last()), events.last())
    }
}

/// The state after the same key is pressed once for each of `times`.
pub open spec fn after_presses(state: ViewModel, key: Key, times: Seq<u64>) -> ViewModel
    decreases times.len(),
{
    if times.len() == 0 {
        state
    } else {
        after_presses(state, key, times.drop_last()).on_key(key, times.last())
    }
}

/// Holding an offset inside the file gives an offset inside the file, and
/// changes none that lies there.
pub proof fn lemma_clamp_in_file(offset: u64, file_size: u64)
    ensures
        in_file(clamp_offset(offset, file_size), file_size),
        in_file(offset, file_size) ==> clamp_offset(offset, file_size) == offset,
{
}

/// A step keeps a state well formed, and changes neither the size of the
/// file nor the length of a row.
pub proof fn lemma_step_keeps_wf(state: ViewModel, event: Event)
    requires
        state.wf(),
    ensures
        after_step(state, event).wf(),
        after_step(state, event).file_size == state.file_size,
        after_step(state, event).bytes_per_line == state.bytes_per_line,
{
}

/// After each step of a session the offset lies inside the file:
/// `0 <= offset < max(file_size, 1)`.
pub proof fn lemma_offset_stays_in_file(state: ViewModel, events: Seq<Event>)
    requires
        state.wf(),
    ensures
        forall|n: int|
            0 <= n <= events.len() ==> {
                let then = #[trigger] after_steps(state, events.take(n));
                then.wf() && then.file_size == state.file_size && in_file(
                    then.offset,
                    state.file_size,
                )
            },
    decreases events.len(),
{
    assert forall|n: int| 0 <= n <= events.len() implies {
        let then = #[trigger] after_steps(state, events.take(n));
        then.wf() && then.file_size == state.file_size && in_file(then.offset, state.file_size)
    } by {
        if n == events.len() {
            assert(events.take(n) == events);
            if n > 0 {
                let before = events.drop_last();
                lemma_offset_stays_in_file(state, before);
                assert(before.take(n - 1) == before);
                lemma_step_keeps_wf(after_steps(state, before), events.last());
            }
        } else {
            lemma_offset_stays_in_file(state, events.drop_last());
            assert(events.drop_last().take(n) == events.take(n));
        }
    }
}

/// Planning the read for a viewport of height `H` makes the page
/// `bytes_per_line * max(H - 4, 0)` bytes, where `usize` can count them.
pub proof fn lemma_page_tracks_viewport(state: ViewModel, viewport_height: u16, now: u64)
    requires
        state.bytes_per_line * visible_lines(viewport_height) <= usize::MAX,
    ensures
        visible_lines(viewport_height) == (if viewport_height >= 4 {
            viewport_height - 4
        } else {
            0
        }),
        state.frame(viewport_height, now).page_size == state.bytes_per_line * visible_lines(
            viewport_height,
        ),
{
}

/// At the end of the file nothing is left to fetch, and the status after
/// the frame begins with "End of file reached".
pub proof fn lemma_end_of_file(state: ViewModel, viewport_height: u16, now: u64)
    requires
        state.offset >= state.file_size,
    ensures
        bytes_to_read(state.offset, state.file_size, state.bytes_per_line, viewport_height) == 0,
        state.frame(viewport_height, now).status == end_of_file_text(state.offset),
        "End of file reached"@.is_prefix_of(state.frame(viewport_height, now).status),
{
    reveal_strlit("End of file reached");
    reveal_strlit("End of file reached at 0x");
    let text = end_of_file_text(state.offset);
    assert("End of file reached"@.len() == 19);
    assert("End of file reached at 0x"@.len() == 25);
    assert("End of file reached"@ =~= text.subrange(0, 19));
}

/// Where End goes in normal mode: `file_size - page_size` or 0, held
/// inside the file.
pub open spec fn end_offset(state: ViewModel) -> u64 {
    clamp_offset(saturating_difference(state.file_size, state.page_size as int), state.file_size)
}

/// Home in normal mode goes to offset 0 and changes neither the mode, the
/// file nor the page.
pub proof fn lemma_home(state: ViewModel, now: u64)
    requires
        state.wf(),
        state.mode == Mode::Normal,
    ensures
        state.on_key(Key::Home, now).offset == 0,
        state.on_key(Key::Home, now).mode == Mode::Normal,
        state.on_key(Key::Home, now).wf(),
        state.on_key(Key::Home, now).file_size == state.file_size,
        state.on_key(Key::Home, now).page_size == state.page_size,
{
}

/// End in normal mode goes to `end_offset` and changes neither the mode,
/// the file nor the page.
pub proof fn lemma_end(state: ViewModel, now: u64)
    requires
        state.wf(),
        state.mode == Mode::Normal,
    ensures
        state.on_key(Key::End, now).offset == end_offset(state),
        state.on_key(Key::End, now).mode == Mode::Normal,
        state.on_key(Key::End, now).wf(),
        state.on_key(Key::End, now).file_size == state.file_size,
        state.on_key(Key::End, now).page_size == state.page_size,
{
}

/// Home in normal mode goes to offset 0, and stays there however often it
/// is pressed.
pub proof fn lemma_home_is_idempotent(state: ViewModel, times: Seq<u64>)
    requires
        state.wf(),
        state.mode == Mode::Normal,
        times.len() >= 1,
    ensures
        after_presses(state, Key::Home, times).offset == 0,
        after_presses(state, Key::Home, times).mode == Mode::Normal,
        after_presses(state, Key::Home, times).wf(),
    decreases times.len(),
{
    let before = after_presses(state, Key::Home, times.drop_last());
    if times.len() > 1 {
        lemma_home_is_idempotent(state, times.drop_last());
    } else {
        assert(before == state);
    }
    lemma_home(before, times.last());
}

/// End in normal mode goes to the same offset however often it is pressed.
/// That offset is `file_size.saturating_sub(page_size)`, unless the page is
/// empty and the file is not.
pub proof fn lemma_end_is_idempotent(state: ViewModel, times: Seq<u64>)
    requires
        state.wf(),
        state.mode == Mode::Normal,
        times.len() >= 1,
    ensures
        after_presses(state, Key::End, times).offset == end_offset(state),
        after_presses(state, Key::End, times).mode == Mode::Normal,
        after_presses(state, Key::End, times).wf(),
        after_presses(state, Key::End, times).file_size == state.file_size,
        after_presses(state, Key::End, times).page_size == state.page_size,
        state.page_size > 0 || state.file_size == 0 ==> after_presses(
            state,
            Key::End,
            times,
        ).offset == saturating_difference(state.file_size, state.page_size as int),
    decreases times.len(),
{
    let before = after_presses(state, Key::End, times.drop_last());
    if times.len() > 1 {
        lemma_end_is_idempotent(state, times.drop_last());
    } else {
        assert(before == state);
    }
    lemma_end(before, times.last());
}

/// The digits that a number is written with are digits of the radix, and
/// denote the number.
pub proof fn lemma_digits_denote(n: nat, radix: nat)
    requires
        radix == 10 || radix == 16,
    ensures
        digits(n, radix).len() >= 1,
        all_digits(digits(n, radix), radix as int),
        number_value(digits(n, radix), radix as int) == n,
    decreases n,
{
    let written = digits(n, radix);
    if n < radix {
        assert(written.drop_last() =~= Seq::<char>::empty());
        assert(digit_value(digit_char(n as int), radix as int) == Some(n as int));
        assert(number_value(written.drop_last(), radix as int) == 0);
    } else {
        let head = digits(n / radix, radix);
        let last = digit_char((n % radix) as int);
        lemma_quotient_smaller(n, radix);
        lemma_digits_denote(n / radix, radix);
        assert(written.drop_last() =~= head);
        assert(written.last() == last);
        assert(digit_value(last, radix as int) == Some((n % radix) as int));
        vstd::arithmetic::div_mod::lemma_fundamental_div_mod(n as int, radix as int);
        assert((n / radix) * radix == radix * (n / radix)) by (nonlinear_arith);
        assert forall|i: int| 0 <= i < written.len() implies (#[trigger] digit_value(
            written[i],
            radix as int,
        )) is Some by {
            if i < head.len() {
                assert(written[i] == head[i]);
            }
        }
    }
}

/// An offset as the status line writes it can be typed back: in decimal,
/// and in hexadecimal behind `0x`, it parses to itself.
pub proof fn lemma_written_offset_parses_back(n: u64)
    ensures
        parse_offset(decimal(n as nat)) == Ok::<u64, ParseError>(n),
        parse_offset(seq!['0', 'x'] + upper_hex(n as nat)) == Ok::<u64, ParseError>(n),
{
    lemma_digits_denote(n as nat, 10);
    lemma_digits_denote(n as nat, 16);
    let written = decimal(n as nat);
    if written.len() >= 2 {
        assert(digit_value(written[1], 10) is Some);
    }
    let hex = seq!['0', 'x'] + upper_hex(n as nat);
    assert(hex.skip(2) =~= upper_hex(n as nat));
    assert(parse_digits(upper_hex(n as nat), 16) == Ok::<u64, ParseError>(n));
}

} // verus!
