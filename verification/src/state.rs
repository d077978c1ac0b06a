//! The view state of a session, and the steps that change it: keys,
//! commands, and the read planned for each frame.

use vstd::prelude::*;
use crate::command::{command_in, parse_command, Command};
use crate::messages::{
    bad_offset_message, idle_message, jumped_message, moved_message, next_page_message,
    opened_message, pages_message, read_error_message, read_error_text,
};
use crate::model::{
    action_of, clamp_offset, in_file, saturating_difference, saturating_sum, Action, Key, Mode,
    Signal, ViewModel, STATUS_LIFETIME_MS,
};
use crate::text::{chars_of, string_of};
use crate::viewport::{bytes_to_read, plan_read, requested_bytes, visible_lines, ReadPlan};

verus! {

/// The state of a session. Every value of it is well formed
/// (see `ViewModel::wf`).
pub struct ViewState {
    file_size: u64,
    current_offset: u64,
    bytes_per_line: usize,
    page_size: u64,
    mode: Mode,
    input_buffer: Vec<char>,
    status_message: String,
    status_time: u64,
    should_quit: bool,
}

impl View for ViewState {
    type V = ViewModel;

    closed spec fn view(&self) -> ViewModel {
        ViewModel {
            file_size: self.file_size,
            offset: self.current_offset,
            bytes_per_line: self.bytes_per_line,
            page_size: self.page_size,
            mode: self.mode,
            input: self.input_buffer@,
            status: self.status_message@,
            status_time: self.status_time,
            quit: self.should_quit,
        }
    }
}

/// What the footer shows.
#[derive(Debug, PartialEq, Eq)]
pub enum Footer {
    /// Normal mode: a status message, or the offset and a hint.
    Message(String),
    /// Command mode: the command line as typed so far.
    Prompt(String),
}

/// The action that a key asks for in normal mode.
pub fn action_for(key: Key) -> (action: Action)
    ensures
        action == action_of(key),
{
    match key {
        Key::Char(c) => {
            if c == 'q' || c == 'Q' {
                Action::Quit
            } else if c == ':' {
                Action::EnterCommand
            } else if c == 'j' {
                Action::LineDown
            } else if c == 'k' {
                Action::LineUp
            } else if c == ' ' {
                Action::PageDown
            } else {
                Action::Nothing
            }
        },
        Key::Down => Action::LineDown,
        Key::Up => Action::LineUp,
        Key::PageDown => Action::PageDown,
        Key::PageUp => Action::PageUp,
        Key::Home => Action::Home,
        Key::End => Action::End,
        _ => Action::Nothing,
    }
}

/// `offset`, held inside a file of the given size.
pub fn clamp(offset: u64, file_size: u64) -> (r: u64)
    ensures
        r == clamp_offset(offset, file_size),
        in_file(r, file_size),
{
    let last: u64 = file_size.saturating_sub(1);
    if offset <= last {
        offset
    } else {
        last
    }
}

/// `offset + pages * page_size`, or `u64::MAX` where that is larger.
pub fn pages_ahead(offset: u64, pages: u64, page_size: u64) -> (r: u64)
    ensures
        r == saturating_sum(offset, pages * page_size),
{
    match pages.checked_mul(page_size) {
        Some(distance) => offset.saturating_add(distance),
        None => u64::MAX,
    }
}

/// `offset - pages * page_size`, or 0 where that is negative.
pub fn pages_behind(offset: u64, pages: u64, page_size: u64) -> (r: u64)
    ensures
        r == saturating_difference(offset, pages * page_size),
{
    match pages.checked_mul(page_size) {
        Some(distance) => offset.saturating_sub(distance),
        None => 0,
    }
}

impl ViewState {
    #[verifier::type_invariant]
    spec fn well_formed(&self) -> bool {
        self@.wf()
    }

    /// The state of a fresh session on a file of `file_size` bytes at
    /// `path`: normal mode, the offset as near to `initial_offset` as the
    /// file allows, a page of sixteen rows.
    pub fn new(
        path: &str,
        file_size: u64,
        bytes_per_line: usize,
        initial_offset: u64,
        now: u64,
    ) -> (state: ViewState)
        requires
            bytes_per_line >= 1,
        ensures
            state@ == ViewModel::opened(path@, file_size, bytes_per_line, initial_offset, now),
            state@.wf(),
    {
        let page_size: u64 = match (bytes_per_line as u64).checked_mul(16) {
            Some(n) => n,
            None => u64::MAX,
        };
        ViewState {
            file_size,
            current_offset: clamp(initial_offset, file_size),
            bytes_per_line,
            page_size,
            mode: Mode::Normal,
            input_buffer: Vec::new(),
            status_message: opened_message(path, file_size),
            status_time: now,
            should_quit: false,
        }
    }

    /// The size of the file.
    pub fn file_size(&self) -> (r: u64)
        ensures
            r == self@.file_size,
    {
        self.file_size
    }

    /// The offset of the first byte shown.
    pub fn current_offset(&self) -> (r: u64)
        ensures
            r == self@.offset,
            in_file(r, self@.file_size),
    {
        proof {
            use_type_invariant(self);
        }
        self.current_offset
    }

    /// The bytes in a full row.
    pub fn bytes_per_line(&self) -> (r: usize)
        ensures
            r == self@.bytes_per_line,
            r >= 1,
    {
        proof {
            use_type_invariant(self);
        }
        self.bytes_per_line
    }

    /// The bytes in a full viewport, as the last frame had it.
    pub fn page_size(&self) -> (r: u64)
        ensures
            r == self@.page_size,
    {
        self.page_size
    }

    /// The mode.
    pub fn mode(&self) -> (r: Mode)
        ensures
            r == self@.mode,
    {
        self.mode
    }

    /// The command line as typed so far.
    pub fn input_buffer(&self) -> (r: String)
        ensures
            r@ == self@.input,
    {
        string_of(&self.input_buffer)
    }

    /// The last status message.
    pub fn status_message(&self) -> (r: String)
        ensures
            r@ == self@.status,
    {
        self.status_message.clone()
    }

    /// When the status was set.
    pub fn status_time(&self) -> (r: u64)
        ensures
            r == self@.status_time,
    {
        self.status_time
    }

    /// Whether the session is to end.
    pub fn should_quit(&self) -> (r: bool)
        ensures
            r == self@.quit,
    {
        self.should_quit
    }

    /// Sets the status and the time it is from.
    pub fn set_status_message(&mut self, message: String, now: u64)
        ensures
            final(self)@ == old(self)@.with_status(message@, now),
            final(self)@.wf(),
    {
        proof {
            use_type_invariant(&*self);
        }
        self.status_message = message;
        self.status_time = now;
    }

    /// Takes the command line out of the state, and leaves an empty one.
    fn take_input(&mut self) -> (line: Vec<char>)
        ensures
            line@ == old(self)@.input,
            final(self)@ == (ViewModel { input: Seq::empty(), ..old(self)@ }),
    {
        proof {
            use_type_invariant(&*self);
        }
        let mut line: Vec<char> = Vec::new();
        core::mem::swap(&mut line, &mut self.input_buffer);
        line
    }

    /// Goes to `target`, held inside the file, under the given status.
    fn move_to(&mut self, target: u64, message: String, now: u64)
        ensures
            final(self)@ == old(self)@.at(target).with_status(message@, now).clamped(),
            final(self)@.wf(),
    {
        proof {
            use_type_invariant(&*self);
        }
        self.current_offset = clamp(target, self.file_size);
        self.set_status_message(message, now);
    }

    /// Does what `action` asks for.
    pub fn act(&mut self, action: Action, now: u64)
        ensures
            final(self)@ == old(self)@.act(action, now).clamped(),
            final(self)@.wf(),
    {
        proof {
            use_type_invariant(&*self);
        }
        match action {
            Action::Quit => {
                self.should_quit = true;
            },
            Action::EnterCommand => {
                self.mode = Mode::Command;
                self.take_input();
                self.set_status_message(
                    String::from_str(
                        "Command mode: enter offset (e.g., '0x100') or page command (e.g., 'page +10')",
                    ),
                    now,
                );
            },
            Action::LineDown => {
                let target: u64 = self.current_offset.saturating_add(self.bytes_per_line as u64);
                self.move_to(target, moved_message(target), now);
            },
            Action::LineUp => {
                let target: u64 = self.current_offset.saturating_sub(self.bytes_per_line as u64);
                self.move_to(target, moved_message(target), now);
            },
            Action::PageDown => {
                let target: u64 = self.current_offset.saturating_add(self.page_size);
                self.move_to(target, moved_message(target), now);
            },
            Action::PageUp => {
                let target: u64 = self.current_offset.saturating_sub(self.page_size);
                self.move_to(target, moved_message(target), now);
            },
            Action::Home => {
                self.move_to(0, String::from_str("Moved to start of file"), now);
            },
            Action::End => {
                let target: u64 = self.file_size.saturating_sub(self.page_size);
                self.move_to(target, String::from_str("Moved to end of file"), now);
            },
            Action::Nothing => {},
        }
    }

    /// Does what `command` asks for.
    pub fn run(&mut self, command: Command, now: u64)
        ensures
            final(self)@ == old(self)@.run(command, now),
            final(self)@.wf(),
    {
        proof {
            use_type_invariant(&*self);
        }
        match command {
            Command::Empty => {
                self.set_status_message(String::from_str("No command entered."), now);
            },
            Command::Quit => {
                self.should_quit = true;
            },
            Command::NextPage => {
                let target: u64 = self.current_offset.saturating_add(self.page_size);
                self.move_to(target, next_page_message(target), now);
            },
            Command::PagesForward(pages) => {
                let target: u64 = pages_ahead(self.current_offset, pages, self.page_size);
                self.move_to(target, pages_message('+', pages, target), now);
            },
            Command::PagesBack(pages) => {
                let target: u64 = pages_behind(self.current_offset, pages, self.page_size);
                self.move_to(target, pages_message('-', pages, target), now);
            },
            Command::BadForwardCount => {
                self.set_status_message(
                    String::from_str("Error: Invalid page count for '+' operation."),
                    now,
                );
            },
            Command::BadBackCount => {
                self.set_status_message(
                    String::from_str("Error: Invalid page count for '-' operation."),
                    now,
                );
            },
            Command::BadPageFormat => {
                self.set_status_message(
                    String::from_str("Error: Invalid 'page' command format."),
                    now,
                );
            },
            Command::Goto(target) => {
                self.move_to(target, jumped_message(target), now);
            },
            Command::BadOffset(e) => {
                self.set_status_message(bad_offset_message(e), now);
            },
        }
    }

    /// Executes the command on the command line.
    pub fn execute_command(&mut self, now: u64)
        ensures
            final(self)@ == old(self)@.execute(now),
            final(self)@.wf(),
    {
        let command: Command = parse_command(&self.input_buffer);
        self.run(command, now);
    }

    /// Executes `line` as a command, whatever the mode and the command
    /// line.
    pub fn execute(&mut self, line: &str, now: u64)
        ensures
            final(self)@ == old(self)@.run(command_in(line@), now),
            final(self)@.wf(),
    {
        let chars: Vec<char> = chars_of(line);
        let command: Command = parse_command(&chars);
        self.run(command, now);
    }

    /// Takes a key in command mode.
    fn edit(&mut self, key: Key, now: u64)
        requires
            old(self)@.mode == Mode::Command,
        ensures
            final(self)@ == old(self)@.edit(key, now).clamped(),
            final(self)@.wf(),
    {
        proof {
            use_type_invariant(&*self);
        }
        match key {
            Key::Enter => {
                self.execute_command(now);
                self.take_input();
                self.mode = Mode::Normal;
            },
            Key::Esc => {
                self.take_input();
                self.mode = Mode::Normal;
                self.set_status_message(String::from_str("Normal mode"), now);
            },
            Key::Backspace => {
                let mut line: Vec<char> = self.take_input();
                line.pop();
                self.input_buffer = line;
            },
            Key::Char(c) => {
                let mut line: Vec<char> = self.take_input();
                line.push(c);
                self.input_buffer = line;
            },
            _ => {},
        }
    }

    /// Takes a key: in normal mode it navigates, in command mode it edits
    /// or ends the command line. Afterwards the offset lies inside the file.
    pub fn handle_key_event(&mut self, key: Key, now: u64)
        ensures
            final(self)@ == old(self)@.on_key(key, now),
            final(self)@.wf(),
            in_file(final(self)@.offset, final(self)@.file_size),
            final(self)@.file_size == old(self)@.file_size,
            final(self)@.bytes_per_line == old(self)@.bytes_per_line,
            final(self)@.page_size == old(self)@.page_size,
    {
        match self.mode {
            Mode::Normal => {
                self.act(action_for(key), now);
            },
            Mode::Command => {
                self.edit(key, now);
            },
        }
    }

    /// Plans the read for a frame with a viewport of the given height. The
    /// page becomes what fills that viewport. Where nothing is left to
    /// fetch, the status says that the end of the file is reached.
    pub fn read_current_chunk(&mut self, viewport_height: u16, now: u64) -> (plan: ReadPlan)
        ensures
            final(self)@ == old(self)@.frame(viewport_height, now),
            final(self)@.wf(),
            plan.offset == old(self)@.offset,
            plan.requested == requested_bytes(
                old(self)@.bytes_per_line,
                viewport_height,
            ),
            plan.to_read == bytes_to_read(
                old(self)@.offset,
                old(self)@.file_size,
                old(self)@.bytes_per_line,
                viewport_height,
            ),
            final(self)@.page_size == plan.requested,
            old(self)@.bytes_per_line * visible_lines(viewport_height) <= usize::MAX
                ==> final(self)@.page_size == old(self)@.bytes_per_line * visible_lines(
                viewport_height,
            ),
            plan.offset + plan.to_read <= old(self)@.file_size,
    {
        proof {
            use_type_invariant(&*self);
        }
        let plan: ReadPlan = plan_read(
            self.current_offset,
            self.file_size,
            self.bytes_per_line,
            viewport_height,
        );
        self.page_size = plan.requested as u64;
        match plan.status() {
            Some(message) => {
                self.set_status_message(message, now);
            },
            None => {},
        }
        plan
    }

    /// Takes a signal of the terminal. After a resize the result is the
    /// read to make for the new viewport.
    pub fn handle_signal(&mut self, signal: Signal, now: u64) -> (plan: Option<ReadPlan>)
        ensures
            final(self)@ == old(self)@.on_signal(signal, now),
            final(self)@.wf(),
            match signal {
                Signal::Key(_) => plan is None,
                Signal::Resize(viewport_height) => plan == Some(
                    ReadPlan {
                        offset: old(self)@.offset,
                        requested: requested_bytes(
                            old(self)@.bytes_per_line,
                            viewport_height,
                        ),
                        to_read: bytes_to_read(
                            old(self)@.offset,
                            old(self)@.file_size,
                            old(self)@.bytes_per_line,
                            viewport_height,
                        ),
                    },
                ),
            },
    {
        match signal {
            Signal::Key(key) => {
                self.handle_key_event(key, now);
                None
            },
            Signal::Resize(viewport_height) => Some(self.read_current_chunk(viewport_height, now)),
        }
    }

    /// Records that the read for a frame failed, for the given reason.
    pub fn report_read_error(&mut self, reason: &str, now: u64)
        ensures
            final(self)@ == old(self)@.with_status(read_error_text(reason@), now),
            final(self)@.wf(),
    {
        proof {
            use_type_invariant(&*self);
        }
        self.set_status_message(read_error_message(reason), now);
    }

    /// What the footer shows at `now`.
    pub fn footer(&self, now: u64) -> (footer: Footer)
        ensures
            match footer {
                Footer::Message(text) => self@.mode == Mode::Normal && text@ == self@.footer_text(
                    now,
                ),
                Footer::Prompt(line) => self@.mode == Mode::Command && line@ == self@.input,
            },
    {
        match self.mode {
            Mode::Normal => {
                let age: u64 = now.saturating_sub(self.status_time);
                if age < STATUS_LIFETIME_MS && !self.status_message.as_str().is_empty() {
                    Footer::Message(self.status_message.clone())
                } else {
                    Footer::Message(idle_message(self.current_offset))
                }
            },
            Mode::Command => Footer::Prompt(string_of(&self.input_buffer)),
        }
    }
}

} // verus!
