use mios::commands::{handle_command, Commands};
use mios::handoff::{ScancodePoll, ScancodeStream};
use mios::keyboard::{
    handle_character, handle_key, on_key, AppContext, DisplayMode, Key, ScreenEffect, BACKSPACE,
};
use mios::text::{is_whitespace, same_text};
use mios::writer::{GridOp, Writer, BOTTOM_ROW, BUFFER_WIDTH, REPLACEMENT_GLYPH};
use pc_keyboard::{layouts, DecodedKey, HandleControl, Keyboard, ScancodeSet1};

const HELP: &str =
    "Available commands:\nhelp - display this help message\necho - echo the command cache\n";

fn context_with(line: &str) -> AppContext {
    let mut c = AppContext::new();
    c.command_cache = String::from(line);
    c
}

fn printed(effect: Option<ScreenEffect>) -> String {
    match effect {
        Some(ScreenEffect::Print(text)) => text,
        Some(ScreenEffect::Erase) => panic!("expected text, got an erase"),
        None => panic!("expected text, got nothing"),
    }
}

#[test]
fn new_context_starts_in_text_mode() {
    let c = AppContext::new();
    assert_eq!(c.prompt, "mios> ");
    assert_eq!(c.command_cache, "");
    assert_eq!(c.mode, DisplayMode::Text80x25);
}

#[test]
fn echo_prints_its_argument() {
    let mut c = context_with("echo hi there");
    assert_eq!(handle_command(&mut c), "\nhi there\nmios> ");
    assert_eq!(c.command_cache, "");
    assert_eq!(c.prompt, "mios> ");
}

#[test]
fn echo_keeps_all_but_one_leading_space() {
    let mut c = context_with("echo   hi there");
    match Commands::from_str(&mut c) {
        Commands::Echo { message } => assert_eq!(message, "  hi there"),
        _ => panic!("expected echo"),
    }
    assert_eq!(c.command_cache, "echo   hi there");
}

#[test]
fn echo_without_argument_prints_empty_line() {
    let mut c = context_with("echo");
    assert_eq!(handle_command(&mut c), "\n\nmios> ");
}

#[test]
fn tab_after_word_gives_no_argument() {
    let mut c = context_with("echo\thi");
    match Commands::from_str(&mut c) {
        Commands::Echo { message } => assert_eq!(message, ""),
        _ => panic!("expected echo"),
    }
}

#[test]
fn prompt_command_replaces_prompt() {
    let mut c = context_with("prompt $ ");
    assert_eq!(handle_command(&mut c), "\n$ ");
    assert_eq!(c.prompt, "$ ");
    assert_eq!(c.command_cache, "");
}

#[test]
fn unknown_command_reports_whole_line() {
    let mut c = context_with("foo bar");
    assert_eq!(handle_command(&mut c), "\nUnknown command: foo bar\nmios> ");
    assert_eq!(c.command_cache, "");
}

#[test]
fn leading_whitespace_still_finds_command_word() {
    let mut c = context_with("  help");
    assert!(matches!(Commands::from_str(&mut c), Commands::Help));
    let mut c = context_with("  echo hi");
    match Commands::from_str(&mut c) {
        Commands::Echo { message } => assert_eq!(message, ""),
        _ => panic!("expected echo"),
    }
}

#[test]
fn empty_line_is_unknown() {
    let mut c = context_with("");
    assert_eq!(handle_command(&mut c), "\nUnknown command: \nmios> ");
}

#[test]
fn help_prints_usage() {
    let mut c = context_with("help");
    assert_eq!(handle_command(&mut c), format!("\n{}mios> ", HELP));
}

#[test]
fn draw_prints_nothing_but_prompt() {
    let mut c = context_with("draw extra");
    assert!(matches!(Commands::from_str(&mut c), Commands::Draw));
    assert_eq!(handle_command(&mut c), "\nmios> ");
}

#[test]
fn execute_leaves_buffer_alone() {
    let mut c = context_with("prompt > ");
    let command = Commands::from_str(&mut c);
    assert_eq!(command.execute(&mut c), "\n");
    assert_eq!(c.prompt, "> ");
    assert_eq!(c.command_cache, "prompt > ");
}

#[test]
fn repeated_backspace_on_empty_buffer_does_nothing() {
    let mut c = AppContext::new();
    for _ in 0..5 {
        assert!(handle_key(Key::Unicode(BACKSPACE), &mut c).is_none());
        assert_eq!(c.command_cache, "");
        assert_eq!(c.prompt, "mios> ");
    }
}

#[test]
fn backspace_removes_last_character() {
    let mut c = context_with("ab");
    assert!(matches!(handle_key(Key::Unicode(BACKSPACE), &mut c), Some(ScreenEffect::Erase)));
    assert_eq!(c.command_cache, "a");
}

#[test]
fn typed_character_is_appended_and_echoed() {
    let mut c = AppContext::new();
    assert_eq!(printed(handle_key(Key::Unicode('x'), &mut c)), "x");
    assert_eq!(printed(handle_key(Key::Unicode('é'), &mut c)), "é");
    assert_eq!(c.command_cache, "xé");
}

#[test]
fn raw_key_is_echoed_but_not_buffered() {
    let mut c = context_with("ab");
    assert_eq!(printed(handle_key(Key::RawKey(String::from("F1")), &mut c)), "F1");
    assert_eq!(c.command_cache, "ab");
}

#[test]
fn graphics_mode_discards_keys() {
    let mut c = AppContext::new();
    c.mode = DisplayMode::Graphics640x480x16;
    assert!(on_key(Key::Unicode('a'), &mut c).is_none());
    assert!(on_key(Key::Unicode('\n'), &mut c).is_none());
    assert_eq!(c.command_cache, "");
    c.mode = DisplayMode::Text80x25;
    assert_eq!(printed(on_key(Key::Unicode('a'), &mut c)), "a");
}

#[test]
fn handle_character_returns_echo() {
    let mut buffer = String::from("ec");
    assert_eq!(handle_character(&mut buffer, 'h'), "h");
    assert_eq!(buffer, "ech");
}

#[test]
fn typing_help_and_enter_prints_usage() {
    let mut stream = ScancodeStream::new();
    // scancode set 1 make codes for h, e, l, p and enter
    for code in [0x23u8, 0x12, 0x26, 0x19, 0x1c] {
        stream.add_scancode(code);
    }
    let mut keyboard = Keyboard::new(layouts::Us104Key, ScancodeSet1, HandleControl::Ignore);
    let mut c = AppContext::new();
    let mut out = String::new();
    let mut before_enter = String::new();
    while let ScancodePoll::Ready(code) = stream.poll_next(0) {
        let key = match keyboard.add_byte(code) {
            Ok(Some(event)) => match keyboard.process_keyevent(event) {
                Some(DecodedKey::Unicode(ch)) => Key::Unicode(ch),
                Some(DecodedKey::RawKey(k)) => Key::RawKey(format!("{:?}", k)),
                None => continue,
            },
            _ => continue,
        };
        if matches!(key, Key::Unicode('\n')) {
            before_enter = c.command_cache.clone();
        }
        match on_key(key, &mut c) {
            Some(ScreenEffect::Print(text)) => out.push_str(&text),
            Some(ScreenEffect::Erase) => {}
            None => {}
        }
    }
    assert_eq!(before_enter, "help");
    assert_eq!(out, format!("help\n{}mios> ", HELP));
    assert_eq!(c.command_cache, "");
}

#[test]
fn whitespace_matches_std() {
    for c in ['\t', '\n', ' ', '\u{a0}', '\u{2003}', '\u{3000}', 'a', '0', '\u{200b}'] {
        assert_eq!(is_whitespace(c), c.is_whitespace());
    }
}

#[test]
fn same_text_compares_characters() {
    assert!(same_text("help", "help"));
    assert!(!same_text("help", "hel"));
    assert!(!same_text("help", "hElp"));
    assert!(same_text("", ""));
}

#[test]
fn writer_puts_bytes_on_bottom_row() {
    let mut w = Writer::new(0);
    let ops = w.write_string("a\x01\nb");
    assert_eq!(
        ops,
        vec![
            GridOp::Put { col: 0, row: BOTTOM_ROW, glyph: b'a' },
            GridOp::Put { col: 1, row: BOTTOM_ROW, glyph: REPLACEMENT_GLYPH },
            GridOp::NewLine,
            GridOp::Put { col: 0, row: BOTTOM_ROW, glyph: b'b' },
        ]
    );
    assert_eq!(w.column_position, 1);
    assert_eq!(w.draw_cursor(), GridOp::Cursor { col: 1, row: BOTTOM_ROW });
}

#[test]
fn writer_wraps_full_row() {
    let mut w = Writer::new(BUFFER_WIDTH);
    assert_eq!(
        w.write_byte(b'z'),
        vec![GridOp::NewLine, GridOp::Put { col: 0, row: BOTTOM_ROW, glyph: b'z' }]
    );
    assert_eq!(w.column_position, 1);
}

#[test]
fn writer_delete_erases_previous_cell() {
    let mut w = Writer::new(3);
    assert_eq!(
        w.delete_char(),
        vec![
            GridOp::Put { col: 2, row: BOTTOM_ROW, glyph: b' ' },
            GridOp::Cursor { col: 2, row: BOTTOM_ROW },
        ]
    );
    assert_eq!(w.column_position, 2);
    let mut w = Writer::new(0);
    assert_eq!(w.delete_char(), vec![GridOp::Cursor { col: 0, row: BOTTOM_ROW }]);
    assert_eq!(w.column_position, 0);
}
