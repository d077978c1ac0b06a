//! The view state as a mathematical value, and what keys, commands and
//! frames do to it.

use vstd::prelude::*;
use crate::command::{command_in, Command};
use crate::messages::{
    bad_offset_text, end_of_file_text, idle_text, jumped_text, moved_text, next_page_text,
    opened_text, pages_text,
};
use crate::viewport::{bytes_to_read, requested_bytes};

verus! {

/// How long a status message is shown, in milliseconds.
pub const STATUS_LIFETIME_MS: u64 = 5000;

/// Whether keys navigate, or fill the command line.
#[derive(Clone, Copy, Debug, PartialEq, Eq, Structural)]
pub enum Mode {
    Normal,
    Command,
}

/// A key, as far as the viewer tells keys apart.
#[derive(Clone, Copy, Debug, PartialEq, Eq, Structural)]
pub enum Key {
    /// A character key.
    Char(char),
    Up,
    Down,
    PageUp,
    PageDown,
    Home,
    End,
    Enter,
    Esc,
    Backspace,
    /// Any other key.
    Other,
}

/// What the terminal reports to a session.
#[derive(Clone, Copy, Debug, PartialEq, Eq, Structural)]
pub enum Signal {
    /// A key was pressed.
    Key(Key),
    /// The terminal was resized; the field is the height of the new
    /// viewport.
    Resize(u16),
}

/// What a key asks for in normal mode.
#[derive(Clone, Copy, Debug, PartialEq, Eq, Structural)]
pub enum Action {
    Quit,
    EnterCommand,
    LineDown,
    LineUp,
    PageDown,
    PageUp,
    Home,
    End,
    Nothing,
}

/// The key bindings of normal mode.
pub open spec fn action_of(key: Key) -> Action {
    match key {
        Key::Char(c) => if c == 'q' || c == 'Q' {
            Action::Quit
        } else if c == ':' {
            Action::EnterCommand
        } else if c == 'j' {
            Action::LineDown
        } else if c == 'k' {
            Action::LineUp
        } else if c == ' ' {
            Action::PageDown
        } else {
            Action::Nothing
        },
        Key::Down => Action::LineDown,
        Key::Up => Action::LineUp,
        Key::PageDown => Action::PageDown,
        Key::PageUp => Action::PageUp,
        Key::Home => Action::Home,
        Key::End => Action::End,
        _ => Action::Nothing,
    }
}

/// `a + b`, or `u64::MAX` where the sum is larger.
pub open spec fn saturating_sum(a: u64, b: int) -> u64 {
    if a + b > u64::MAX {
        u64::MAX
    } else if a + b < 0 {
        0
    } else {
        (a + b) as u64
    }
}

/// `a - b`, or 0 where the difference is negative.
pub open spec fn saturating_difference(a: u64, b: int) -> u64 {
    saturating_sum(a, -b)
}

/// The largest offset inside a file of the given size; 0 for an empty file.
pub open spec fn last_offset(file_size: u64) -> u64 {
    if file_size == 0 {
        0
    } else {
        (file_size - 1) as u64
    }
}

/// Whether `offset` lies inside a file of the given size:
/// `0 <= offset < max(file_size, 1)`.
pub open spec fn in_file(offset: u64, file_size: u64) -> bool {
    0 <= offset < (if file_size > 1 {
        file_size as int
    } else {
        1
    })
}

/// `offset`, held inside the file.
pub open spec fn clamp_offset(offset: u64, file_size: u64) -> u64 {
    if offset <= last_offset(file_size) {
        offset
    } else {
        last_offset(file_size)
    }
}

/// The state of a session.
pub struct ViewModel {
    /// The size of the file, as it was when the session began.
    pub file_size: u64,
    /// The offset of the first byte shown.
    pub offset: u64,
    /// The bytes in a full row.
    pub bytes_per_line: usize,
    /// The bytes in a full viewport.
    pub page_size: u64,
    pub mode: Mode,
    /// The command line; empty in normal mode.
    pub input: Seq<char>,
    /// The last status message.
    pub status: Seq<char>,
    /// When the status was set, in milliseconds.
    pub status_time: u64,
    /// Whether the session is to end.
    pub quit: bool,
}

impl ViewModel {
    /// What holds of every state of a session: rows are not empty, the
    /// offset lies inside the file, and only command mode has a command line.
    pub open spec fn wf(self) -> bool {
        &&& self.bytes_per_line >= 1
        &&& in_file(self.offset, self.file_size)
        &&& self.mode == Mode::Normal ==> self.input.len() == 0
    }

    /// The state of a fresh session.
    pub open spec fn opened(
        path: Seq<char>,
        file_size: u64,
        bytes_per_line: usize,
        initial_offset: u64,
        now: u64,
    ) -> ViewModel {
        ViewModel {
            file_size,
            offset: clamp_offset(initial_offset, file_size),
            bytes_per_line,
            page_size: saturating_sum(0, bytes_per_line * 16),
            mode: Mode::Normal,
            input: Seq::empty(),
            status: opened_text(path, file_size),
            status_time: now,
            quit: false,
        }
    }

    /// This state with another status.
    pub open spec fn with_status(self, status: Seq<char>, now: u64) -> ViewModel {
        ViewModel { status, status_time: now, ..self }
    }

    /// This state with the offset held inside the file.
    pub open spec fn clamped(self) -> ViewModel {
        ViewModel { offset: clamp_offset(self.offset, self.file_size), ..self }
    }

    /// This state at `target`, not yet held inside the file.
    pub open spec fn at(self, target: u64) -> ViewModel {
        ViewModel { offset: target, ..self }
    }

    /// What an action of normal mode does, before the offset is held inside
    /// the file.
    pub open spec fn act(self, action: Action, now: u64) -> ViewModel {
        match action {
            Action::Quit => ViewModel { quit: true, ..self },
            Action::EnterCommand => ViewModel {
                mode: Mode::Command,
                input: Seq::empty(),
                ..self
            }.with_status(
                "Command mode: enter offset (e.g., '0x100') or page command (e.g., 'page +10')"@,
                now,
            ),
            Action::LineDown => {
                let target = saturating_sum(self.offset, self.bytes_per_line as int);
                self.at(target).with_status(moved_text(target), now)
            },
            Action::LineUp => {
                let target = saturating_difference(self.offset, self.bytes_per_line as int);
                self.at(target).with_status(moved_text(target), now)
            },
            Action::PageDown => {
                let target = saturating_sum(self.offset, self.page_size as int);
                self.at(target).with_status(moved_text(target), now)
            },
            Action::PageUp => {
                let target = saturating_difference(self.offset, self.page_size as int);
                self.at(target).with_status(moved_text(target), now)
            },
            Action::Home => self.at(0).with_status("Moved to start of file"@, now),
            Action::End => self.at(
                saturating_difference(self.file_size, self.page_size as int),
            ).with_status("Moved to end of file"@, now),
            Action::Nothing => self,
        }
    }

    /// What a command does, before the offset is held inside the file.
    pub open spec fn apply(self, command: Command, now: u64) -> ViewModel {
        match command {
            Command::Empty => self.with_status("No command entered."@, now),
            Command::Quit => ViewModel { quit: true, ..self },
            Command::NextPage => {
                let target = saturating_sum(self.offset, self.page_size as int);
                self.at(target).with_status(next_page_text(target), now)
            },
            Command::PagesForward(pages) => {
                let target = saturating_sum(self.offset, pages * self.page_size);
                self.at(target).with_status(pages_text('+', pages, target), now)
            },
            Command::PagesBack(pages) => {
                let target = saturating_difference(self.offset, pages * self.page_size);
                self.at(target).with_status(pages_text('-', pages, target), now)
            },
            Command::BadForwardCount => self.with_status(
                "Error: Invalid page count for '+' operation."@,
                now,
            ),
            Command::BadBackCount => self.with_status(
                "Error: Invalid page count for '-' operation."@,
                now,
            ),
            Command::BadPageFormat => self.with_status(
                "Error: Invalid 'page' command format."@,
                now,
            ),
            Command::Goto(target) => self.at(target).with_status(jumped_text(target), now),
            Command::BadOffset(e) => self.with_status(bad_offset_text(e), now),
        }
    }

    /// What a command does.
    pub open spec fn run(self, command: Command, now: u64) -> ViewModel {
        self.apply(command, now).clamped()
    }

    /// What the command on the command line does.
    pub open spec fn execute(self, now: u64) -> ViewModel {
        self.run(command_in(self.input), now)
    }

    /// This state back in normal mode, the command line empty.
    pub open spec fn normal(self) -> ViewModel {
        ViewModel { mode: Mode::Normal, input: Seq::empty(), ..self }
    }

    /// What a key does in command mode, before the offset is held inside
    /// the file.
    pub open spec fn edit(self, key: Key, now: u64) -> ViewModel {
        match key {
            Key::Enter => self.execute(now).normal(),
            Key::Esc => self.normal().with_status("Normal mode"@, now),
            Key::Backspace => ViewModel {
                input: if self.input.len() > 0 {
                    self.input.drop_last()
                } else {
                    self.input
                },
                ..self
            },
            Key::Char(c) => ViewModel { input: self.input.push(c), ..self },
            _ => self,
        }
    }

    /// What a key does.
    pub open spec fn on_key(self, key: Key, now: u64) -> ViewModel {
        match self.mode {
            Mode::Normal => self.act(action_of(key), now).clamped(),
            Mode::Command => self.edit(key, now).clamped(),
        }
    }

    /// What planning the read for a frame does: the page becomes what fills
    /// the viewport, and where nothing is left to fetch the status says so.
    pub open spec fn frame(self, viewport_height: u16, now: u64) -> ViewModel {
        let paged = ViewModel {
            page_size: requested_bytes(self.bytes_per_line, viewport_height) as u64,
            ..self
        };
        if bytes_to_read(self.offset, self.file_size, self.bytes_per_line, viewport_height) == 0 {
            paged.with_status(end_of_file_text(self.offset), now)
        } else {
            paged
        }
    }

    /// What a signal does: a key is taken, and after a resize the read is
    /// planned anew.
    pub open spec fn on_signal(self, signal: Signal, now: u64) -> ViewModel {
        match signal {
            Signal::Key(key) => self.on_key(key, now),
            Signal::Resize(viewport_height) => self.frame(viewport_height, now),
        }
    }

    /// Whether the status is shown at `now`: it is not empty, and younger
    /// than its lifetime.
    pub open spec fn status_shown(self, now: u64) -> bool {
        self.status.len() > 0 && saturating_difference(now, self.status_time as int)
            < STATUS_LIFETIME_MS
    }

    /// The footer of normal mode at `now`.
    pub open spec fn footer_text(self, now: u64) -> Seq<char> {
        if self.status_shown(now) {
            self.status
        } else {
            idle_text(self.offset)
        }
    }
}

} // verus!
