use hexview::messages::title;
use hexview::model::{Action, Key, Mode, Signal, STATUS_LIFETIME_MS};
use hexview::state::{action_for, clamp, Footer, ViewState};
use hexview::viewport::ReadPlan;

/// A session on a file of `file_size` bytes, rows of 16 bytes, and a page
/// of `page_size` bytes where that is a multiple of 16.
fn session(file_size: u64, page_size: u64, offset: u64) -> ViewState {
    let mut state = ViewState::new("data.bin", file_size, 16, offset, 0);
    let height = (page_size / 16) as u16 + 4;
    state.read_current_chunk(height, 0);
    assert_eq!(state.page_size(), page_size);
    state
}

fn type_line(state: &mut ViewState, line: &str) {
    state.handle_key_event(Key::Char(':'), 0);
    for c in line.chars() {
        state.handle_key_event(Key::Char(c), 0);
    }
}

#[test]
fn fresh_session() {
    let state = ViewState::new("/tmp/data.bin", 1000, 16, 0x20, 7);
    assert_eq!(state.file_size(), 1000);
    assert_eq!(state.current_offset(), 0x20);
    assert_eq!(state.bytes_per_line(), 16);
    assert_eq!(state.page_size(), 256);
    assert_eq!(state.mode(), Mode::Normal);
    assert_eq!(state.input_buffer(), "");
    assert_eq!(state.status_message(), "File: '/tmp/data.bin' (Size: 1000 bytes)");
    assert_eq!(state.status_time(), 7);
    assert!(!state.should_quit());
}

#[test]
fn initial_offset_is_held_inside_the_file() {
    assert_eq!(ViewState::new("f", 100, 16, 100, 0).current_offset(), 99);
    assert_eq!(ViewState::new("f", 100, 16, u64::MAX, 0).current_offset(), 99);
    assert_eq!(ViewState::new("f", 0, 16, 5, 0).current_offset(), 0);
    assert_eq!(ViewState::new("f", 1, 16, 5, 0).current_offset(), 0);
}

#[test]
fn first_page_is_sixteen_rows() {
    assert_eq!(ViewState::new("f", 100, 1, 0, 0).page_size(), 16);
    assert_eq!(ViewState::new("f", 100, 3, 0, 0).page_size(), 48);
    assert_eq!(ViewState::new("f", 100, usize::MAX, 0, 0).page_size(), u64::MAX);
}

#[test]
fn key_bindings_of_normal_mode() {
    assert_eq!(action_for(Key::Char('q')), Action::Quit);
    assert_eq!(action_for(Key::Char('Q')), Action::Quit);
    assert_eq!(action_for(Key::Char(':')), Action::EnterCommand);
    assert_eq!(action_for(Key::Down), Action::LineDown);
    assert_eq!(action_for(Key::Char('j')), Action::LineDown);
    assert_eq!(action_for(Key::Up), Action::LineUp);
    assert_eq!(action_for(Key::Char('k')), Action::LineUp);
    assert_eq!(action_for(Key::PageDown), Action::PageDown);
    assert_eq!(action_for(Key::Char(' ')), Action::PageDown);
    assert_eq!(action_for(Key::PageUp), Action::PageUp);
    assert_eq!(action_for(Key::Home), Action::Home);
    assert_eq!(action_for(Key::End), Action::End);
    assert_eq!(action_for(Key::Enter), Action::Nothing);
    assert_eq!(action_for(Key::Esc), Action::Nothing);
    assert_eq!(action_for(Key::Backspace), Action::Nothing);
    assert_eq!(action_for(Key::Other), Action::Nothing);
    assert_eq!(action_for(Key::Char('J')), Action::Nothing);
    assert_eq!(action_for(Key::Char('x')), Action::Nothing);
}

#[test]
fn clamp_holds_an_offset_inside_the_file() {
    assert_eq!(clamp(0, 0), 0);
    assert_eq!(clamp(5, 0), 0);
    assert_eq!(clamp(5, 1), 0);
    assert_eq!(clamp(5, 6), 5);
    assert_eq!(clamp(6, 6), 5);
    assert_eq!(clamp(u64::MAX, u64::MAX), u64::MAX - 1);
}

#[test]
fn line_steps() {
    let mut state = session(1000, 32, 0);
    state.handle_key_event(Key::Down, 5);
    assert_eq!(state.current_offset(), 16);
    assert_eq!(state.status_message(), "Moved to 0x10");
    assert_eq!(state.status_time(), 5);
    state.handle_key_event(Key::Char('j'), 6);
    assert_eq!(state.current_offset(), 32);
    assert_eq!(state.status_message(), "Moved to 0x20");
    state.handle_key_event(Key::Up, 7);
    assert_eq!(state.current_offset(), 16);
    state.handle_key_event(Key::Char('k'), 8);
    assert_eq!(state.current_offset(), 0);
    state.handle_key_event(Key::Up, 9);
    assert_eq!(state.current_offset(), 0);
    assert_eq!(state.status_message(), "Moved to 0x0");
    assert_eq!(state.status_time(), 9);
}

#[test]
fn page_steps() {
    let mut state = session(1000, 32, 0);
    state.handle_key_event(Key::PageDown, 0);
    assert_eq!(state.current_offset(), 32);
    state.handle_key_event(Key::Char(' '), 0);
    assert_eq!(state.current_offset(), 64);
    assert_eq!(state.status_message(), "Moved to 0x40");
    state.handle_key_event(Key::PageUp, 0);
    assert_eq!(state.current_offset(), 32);
    state.handle_key_event(Key::PageUp, 0);
    state.handle_key_event(Key::PageUp, 0);
    assert_eq!(state.current_offset(), 0);
}

#[test]
fn steps_behind_the_end_stop_at_the_last_byte() {
    let mut state = session(100, 32, 90);
    state.handle_key_event(Key::Down, 0);
    assert_eq!(state.current_offset(), 99);
    assert_eq!(state.status_message(), "Moved to 0x6A");
    state.handle_key_event(Key::PageDown, 0);
    assert_eq!(state.current_offset(), 99);
    assert_eq!(state.status_message(), "Moved to 0x83");
}

#[test]
fn steps_saturate_at_the_largest_offset() {
    let mut state = session(u64::MAX, 32, u64::MAX - 1);
    assert_eq!(state.current_offset(), u64::MAX - 1);
    state.handle_key_event(Key::Down, 0);
    assert_eq!(state.current_offset(), u64::MAX - 1);
    assert_eq!(state.status_message(), "Moved to 0xFFFFFFFFFFFFFFFF");
}

#[test]
fn home_always_goes_to_the_start() {
    let mut state = session(1000, 32, 500);
    for now in 0..5 {
        state.handle_key_event(Key::Home, now);
        assert_eq!(state.current_offset(), 0);
        assert_eq!(state.status_message(), "Moved to start of file");
    }
}

#[test]
fn end_always_goes_to_the_same_offset() {
    let mut state = session(1000, 32, 0);
    for now in 0..5 {
        state.handle_key_event(Key::End, now);
        assert_eq!(state.current_offset(), 1000u64.saturating_sub(32));
        assert_eq!(state.status_message(), "Moved to end of file");
    }
    let mut small = session(10, 32, 5);
    for now in 0..3 {
        small.handle_key_event(Key::End, now);
        assert_eq!(small.current_offset(), 10u64.saturating_sub(32));
    }
    let mut empty = session(0, 32, 0);
    empty.handle_key_event(Key::End, 0);
    assert_eq!(empty.current_offset(), 0);
}

#[test]
fn end_with_an_empty_page_goes_to_the_last_byte() {
    let mut state = session(1000, 0, 0);
    state.handle_key_event(Key::End, 0);
    assert_eq!(state.current_offset(), 999);
    state.handle_key_event(Key::End, 0);
    assert_eq!(state.current_offset(), 999);
}

#[test]
fn quit_keys() {
    let mut state = session(1000, 32, 0);
    state.handle_key_event(Key::Char('q'), 0);
    assert!(state.should_quit());
    let mut other = session(1000, 32, 0);
    other.handle_key_event(Key::Char('Q'), 0);
    assert!(other.should_quit());
}

#[test]
fn other_keys_do_nothing_in_normal_mode() {
    let mut state = session(1000, 32, 48);
    let status = state.status_message();
    for key in [Key::Other, Key::Enter, Key::Esc, Key::Backspace, Key::Char('x')] {
        state.handle_key_event(key, 99);
        assert_eq!(state.current_offset(), 48);
        assert_eq!(state.mode(), Mode::Normal);
        assert_eq!(state.status_message(), status);
        assert_eq!(state.status_time(), 0);
        assert!(!state.should_quit());
    }
}

#[test]
fn colon_enters_command_mode() {
    let mut state = session(1000, 32, 0);
    state.handle_key_event(Key::Char(':'), 3);
    assert_eq!(state.mode(), Mode::Command);
    assert_eq!(state.input_buffer(), "");
    assert_eq!(
        state.status_message(),
        "Command mode: enter offset (e.g., '0x100') or page command (e.g., 'page +10')"
    );
    assert_eq!(state.status_time(), 3);
}

#[test]
fn command_line_is_edited() {
    let mut state = session(1000, 32, 0);
    type_line(&mut state, "pa");
    assert_eq!(state.input_buffer(), "pa");
    state.handle_key_event(Key::Backspace, 0);
    assert_eq!(state.input_buffer(), "p");
    state.handle_key_event(Key::Backspace, 0);
    state.handle_key_event(Key::Backspace, 0);
    assert_eq!(state.input_buffer(), "");
    state.handle_key_event(Key::Char('q'), 0);
    state.handle_key_event(Key::Char(' '), 0);
    state.handle_key_event(Key::Char('j'), 0);
    state.handle_key_event(Key::Char('\u{e9}'), 0);
    assert_eq!(state.input_buffer(), "q j\u{e9}");
    assert!(!state.should_quit());
    assert_eq!(state.current_offset(), 0);
    for key in [Key::Up, Key::Down, Key::PageUp, Key::PageDown, Key::Home, Key::End, Key::Other] {
        state.handle_key_event(key, 0);
        assert_eq!(state.input_buffer(), "q j\u{e9}");
        assert_eq!(state.mode(), Mode::Command);
        assert_eq!(state.current_offset(), 0);
    }
}

#[test]
fn escape_leaves_command_mode() {
    let mut state = session(1000, 32, 0);
    type_line(&mut state, "0x40");
    state.handle_key_event(Key::Esc, 11);
    assert_eq!(state.mode(), Mode::Normal);
    assert_eq!(state.input_buffer(), "");
    assert_eq!(state.status_message(), "Normal mode");
    assert_eq!(state.status_time(), 11);
    assert_eq!(state.current_offset(), 0);
}

#[test]
fn enter_executes_the_command_line() {
    let mut state = session(1000, 32, 0);
    type_line(&mut state, "0x40");
    state.handle_key_event(Key::Enter, 12);
    assert_eq!(state.mode(), Mode::Normal);
    assert_eq!(state.input_buffer(), "");
    assert_eq!(state.current_offset(), 64);
    assert_eq!(state.status_message(), "Jumped to offset 0x40");
    assert_eq!(state.status_time(), 12);
}

#[test]
fn enter_on_an_empty_command_line() {
    let mut state = session(1000, 32, 16);
    state.handle_key_event(Key::Char(':'), 0);
    state.handle_key_event(Key::Enter, 1);
    assert_eq!(state.mode(), Mode::Normal);
    assert_eq!(state.status_message(), "No command entered.");
    assert_eq!(state.current_offset(), 16);
}

#[test]
fn command_q_quits() {
    let mut state = session(1000, 32, 0);
    type_line(&mut state, "q now");
    state.handle_key_event(Key::Enter, 0);
    assert!(state.should_quit());
    assert_eq!(state.mode(), Mode::Normal);
}

#[test]
fn page_commands_move_by_pages() {
    let mut state = session(1000, 32, 0);
    state.execute("page +2", 1);
    assert_eq!(state.current_offset(), 64);
    assert_eq!(state.status_message(), "Moved +2 pages to 0x40");
    state.execute("page -1", 2);
    assert_eq!(state.current_offset(), 32);
    assert_eq!(state.status_message(), "Moved -1 pages to 0x20");
    assert_eq!(state.status_time(), 2);
    let mut other = session(1000, 32, 0);
    other.execute("0x40", 3);
    assert_eq!(other.current_offset(), 64);
    assert_eq!(other.status_message(), "Jumped to offset 0x40");
}

#[test]
fn page_command_without_a_count() {
    let mut state = session(1000, 32, 16);
    state.execute("page", 0);
    assert_eq!(state.current_offset(), 48);
    assert_eq!(state.status_message(), "Moved to next page at 0x30");
}

#[test]
fn page_commands_stop_at_the_ends_of_the_file() {
    let mut state = session(1000, 32, 16);
    state.execute("page -5", 0);
    assert_eq!(state.current_offset(), 0);
    assert_eq!(state.status_message(), "Moved -5 pages to 0x0");
    state.execute("page +100", 0);
    assert_eq!(state.current_offset(), 999);
    assert_eq!(state.status_message(), "Moved +100 pages to 0xC80");
    state.execute("page +18446744073709551615", 0);
    assert_eq!(state.current_offset(), 999);
    assert_eq!(
        state.status_message(),
        "Moved +18446744073709551615 pages to 0xFFFFFFFFFFFFFFFF"
    );
    state.execute("page -18446744073709551615", 0);
    assert_eq!(state.current_offset(), 0);
}

#[test]
fn jump_behind_the_end_stops_at_the_last_byte() {
    let mut state = session(1000, 32, 0);
    state.execute("5000", 0);
    assert_eq!(state.current_offset(), 999);
    assert_eq!(state.status_message(), "Jumped to offset 0x1388");
}

#[test]
fn bad_commands_change_the_status_only() {
    let mut state = session(1000, 32, 48);
    state.execute("page +x", 1);
    assert_eq!(state.status_message(), "Error: Invalid page count for '+' operation.");
    assert_eq!(state.current_offset(), 48);
    state.execute("page -", 2);
    assert_eq!(state.status_message(), "Error: Invalid page count for '-' operation.");
    assert_eq!(state.current_offset(), 48);
    state.execute("page 2", 3);
    assert_eq!(state.status_message(), "Error: Invalid 'page' command format.");
    assert!(state.status_message().contains("Invalid 'page' command format."));
    state.execute("page +1 +2", 4);
    assert_eq!(state.status_message(), "Error: Invalid 'page' command format.");
    assert_eq!(state.current_offset(), 48);
    state.execute("0xZZ", 5);
    assert_eq!(
        state.status_message(),
        "Error parsing offset: invalid digit found in string"
    );
    state.execute("0x", 6);
    assert_eq!(
        state.status_message(),
        "Error parsing offset: cannot parse integer from empty string"
    );
    state.execute("99999999999999999999", 7);
    assert_eq!(
        state.status_message(),
        "Error parsing offset: number too large to fit in target type"
    );
    assert_eq!(state.status_time(), 7);
    assert_eq!(state.current_offset(), 48);
    assert!(!state.should_quit());
    assert_eq!(state.mode(), Mode::Normal);
}

#[test]
fn offset_stays_inside_the_file_after_every_step() {
    let keys = [
        Key::End,
        Key::Down,
        Key::PageDown,
        Key::Char(' '),
        Key::Char('j'),
        Key::Up,
        Key::Home,
        Key::PageUp,
        Key::Char(':'),
        Key::Char('9'),
        Key::Char('9'),
        Key::Char('9'),
        Key::Enter,
        Key::Down,
        Key::Char(':'),
        Key::Esc,
        Key::End,
        Key::PageDown,
    ];
    for file_size in [0u64, 1, 2, 15, 16, 17, 100, 1000] {
        for height in [0u16, 4, 5, 6, 20] {
            let mut state = ViewState::new("f", file_size, 16, 7, 0);
            assert!(state.current_offset() < file_size.max(1));
            for key in keys {
                state.read_current_chunk(height, 0);
                state.handle_key_event(key, 0);
                assert!(state.current_offset() < file_size.max(1));
            }
            state.execute("page +3", 0);
            assert!(state.current_offset() < file_size.max(1));
            state.execute("0xFFFFFFFFFFFFFFFF", 0);
            assert!(state.current_offset() < file_size.max(1));
        }
    }
}

#[test]
fn page_follows_the_viewport() {
    let mut state = ViewState::new("f", 100_000, 16, 0, 0);
    for height in [0u16, 1, 3, 4, 5, 24, 50, 4, 1000, u16::MAX] {
        let plan = state.read_current_chunk(height, 0);
        let lines = if height > 4 { (height - 4) as u64 } else { 0 };
        assert_eq!(state.page_size(), 16 * lines);
        assert_eq!(plan.requested as u64, 16 * lines);
    }
    let mut narrow = ViewState::new("f", 100_000, 3, 0, 0);
    narrow.read_current_chunk(14, 0);
    assert_eq!(narrow.page_size(), 30);
    narrow.handle_key_event(Key::PageDown, 0);
    assert_eq!(narrow.current_offset(), 30);
}

#[test]
fn planning_a_read_inside_the_file_keeps_the_status() {
    let mut state = ViewState::new("f", 1000, 16, 0x30, 3);
    let plan = state.read_current_chunk(20, 50);
    assert_eq!(plan, ReadPlan { offset: 0x30, requested: 256, to_read: 256 });
    assert_eq!(state.status_message(), "File: 'f' (Size: 1000 bytes)");
    assert_eq!(state.status_time(), 3);
    assert_eq!(state.current_offset(), 0x30);
}

#[test]
fn reading_at_the_end_of_the_file_says_so() {
    let mut state = ViewState::new("f", 0, 16, 0, 0);
    let plan = state.read_current_chunk(20, 9);
    assert_eq!(plan.to_read, 0);
    assert_eq!(state.status_message(), "End of file reached at 0x0");
    assert!(state.status_message().contains("End of file reached"));
    assert_eq!(state.status_time(), 9);
    assert_eq!(state.page_size(), 256);
}

#[test]
fn viewport_without_lines_reads_nothing() {
    let mut state = ViewState::new("f", 1000, 16, 0x2A, 0);
    let plan = state.read_current_chunk(4, 1);
    assert_eq!(plan, ReadPlan { offset: 0x2A, requested: 0, to_read: 0 });
    assert_eq!(state.status_message(), "End of file reached at 0x2A");
    assert_eq!(state.page_size(), 0);
}

#[test]
fn signals_are_keys_and_resizes() {
    let mut state = session(1000, 32, 0);
    assert_eq!(state.handle_signal(Signal::Key(Key::Down), 0), None);
    assert_eq!(state.current_offset(), 16);
    let plan = state.handle_signal(Signal::Resize(24), 0);
    assert_eq!(plan, Some(ReadPlan { offset: 16, requested: 320, to_read: 320 }));
    assert_eq!(state.page_size(), 320);
    assert_eq!(state.handle_signal(Signal::Key(Key::Char('q')), 0), None);
    assert!(state.should_quit());
}

#[test]
fn read_errors_become_the_status() {
    let mut state = session(1000, 32, 64);
    state.report_read_error("permission denied", 4);
    assert_eq!(state.status_message(), "File read error: permission denied");
    assert_eq!(state.status_time(), 4);
    assert_eq!(state.current_offset(), 64);
}

#[test]
fn status_can_be_set() {
    let mut state = session(1000, 32, 0);
    state.set_status_message("hello".to_string(), 77);
    assert_eq!(state.status_message(), "hello");
    assert_eq!(state.status_time(), 77);
}

#[test]
fn footer_shows_a_young_status() {
    let mut state = session(1000, 32, 0x40);
    state.set_status_message("hello".to_string(), 1000);
    assert_eq!(state.footer(1000), Footer::Message("hello".to_string()));
    assert_eq!(
        state.footer(1000 + STATUS_LIFETIME_MS - 1),
        Footer::Message("hello".to_string())
    );
    assert_eq!(state.footer(0), Footer::Message("hello".to_string()));
}

#[test]
fn footer_shows_the_offset_behind_an_old_or_empty_status() {
    let idle = "Offset: 0x40 | Press ':' for command, 'q' to quit, '?' for help";
    let mut state = session(1000, 32, 0x40);
    state.set_status_message("hello".to_string(), 1000);
    assert_eq!(
        state.footer(1000 + STATUS_LIFETIME_MS),
        Footer::Message(idle.to_string())
    );
    assert_eq!(state.footer(u64::MAX), Footer::Message(idle.to_string()));
    state.set_status_message(String::new(), 1000);
    assert_eq!(state.footer(1000), Footer::Message(idle.to_string()));
}

#[test]
fn status_lives_five_seconds() {
    assert_eq!(STATUS_LIFETIME_MS, 5000);
}

#[test]
fn footer_shows_the_command_line_in_command_mode() {
    let mut state = session(1000, 32, 0);
    type_line(&mut state, "page +");
    assert_eq!(state.footer(0), Footer::Prompt("page +".to_string()));
    assert_eq!(state.footer(u64::MAX), Footer::Prompt("page +".to_string()));
}

#[test]
fn title_of_the_frame() {
    assert_eq!(
        title("hexview", "/tmp/data.bin", 1234),
        "hexview - Hex Viewer - /tmp/data.bin (Size: 1234 bytes)"
    );
}
