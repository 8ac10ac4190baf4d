//! The console session: line-edit state and the handling of decoded keys.
use crate::commands::{command_output, handle_command, parse_line, prompt_after};
use crate::text::{pop_char, push_char};
use vstd::prelude::*;

verus! {

/// The display mode the console runs in. Keys are handled in text mode only.
#[derive(Clone, Copy, Debug, PartialEq, Eq, Structural)]
pub enum DisplayMode {
    Text80x25,
    Graphics640x480x16,
}

/// The console session: the prompt, the line typed so far, and the display
/// mode.
pub struct AppContext {
    pub prompt: String,
    pub command_cache: String,
    pub mode: DisplayMode,
}

impl AppContext {
    pub fn new() -> (r: AppContext)
        ensures
            r.prompt@ == "mios> "@,
            r.command_cache@ == Seq::<char>::empty(),
            r.mode == DisplayMode::Text80x25,
    {
        AppContext {
            prompt: String::from_str("mios> "),
            command_cache: String::new(),
            mode: DisplayMode::Text80x25,
        }
    }
}

/// A decoded key: a character, or a key without one, known by its name.
pub enum Key {
    Unicode(char),
    RawKey(String),
}

/// What the renderer is asked to do after a key.
pub enum ScreenEffect {
    /// Write the text at the cursor.
    Print(String),
    /// Erase the last visible cell before the cursor.
    Erase,
}

pub const BACKSPACE: char = '\u{8}';

/// Appends a typed character to the input buffer and returns it as the text
/// to echo.
pub fn handle_character(command_cache: &mut String, character: char) -> (echo: String)
    ensures
        final(command_cache)@ == old(command_cache)@.push(character),
        echo@ == seq![character],
{
    let mut echo = String::new();
    push_char(&mut echo, character);
    push_char(command_cache, character);
    echo
}

/// What handling `key` in text mode does: `before` and `after` are the
/// session around the key, `r` what the renderer is asked to do.
pub open spec fn handled(key: Key, before: AppContext, after: AppContext, r: Option<ScreenEffect>) -> bool {
    &&& after.mode == before.mode
    &&& match key {
        Key::Unicode(c) => if c == '\n' {
            let command = parse_line(before.command_cache@);
            &&& after.command_cache@ == Seq::<char>::empty()
            &&& after.prompt@ == prompt_after(command, before.prompt@)
            &&& r matches Some(ScreenEffect::Print(out)) && out@ == command_output(command)
                + after.prompt@
        } else if c == BACKSPACE {
            if before.command_cache@.len() == 0 {
                r is None && after == before
            } else {
                &&& after.prompt == before.prompt
                &&& after.command_cache@ == before.command_cache@.drop_last()
                &&& r matches Some(ScreenEffect::Erase)
            }
        } else {
            &&& after.prompt == before.prompt
            &&& after.command_cache@ == before.command_cache@.push(c)
            &&& r matches Some(ScreenEffect::Print(out)) && out@ == seq![c]
        },
        Key::RawKey(name) => {
            &&& after == before
            &&& r matches Some(ScreenEffect::Print(out)) && out@ == name@
        },
    }
}

/// Handles one decoded key in text mode. A line break submits the line, a
/// backspace removes the last character when there is one, another
/// character is appended and echoed, and a key without a character is
/// echoed by name without touching the buffer.
pub fn handle_key(key: Key, context: &mut AppContext) -> (r: Option<ScreenEffect>)
    ensures
        handled(key, *old(context), *final(context), r),
{
    match key {
        Key::Unicode(character) => {
            if character == '\n' {
                Some(ScreenEffect::Print(handle_command(context)))
            } else if character == BACKSPACE {
                if context.command_cache.as_str().unicode_len() > 0 {
                    pop_char(&mut context.command_cache);
                    Some(ScreenEffect::Erase)
                } else {
                    None
                }
            } else {
                Some(ScreenEffect::Print(handle_character(&mut context.command_cache, character)))
            }
        },
        Key::RawKey(name) => Some(ScreenEffect::Print(name)),
    }
}

/// Handles a key in the current display mode: in text mode as
/// `handle_key` does; in a graphics mode keys are discarded.
pub fn on_key(key: Key, context: &mut AppContext) -> (r: Option<ScreenEffect>)
    ensures
        old(context).mode == DisplayMode::Graphics640x480x16 ==> r is None && *final(context)
            == *old(context),
        old(context).mode == DisplayMode::Text80x25 ==> handled(key, *old(context), *final(context), r),
{
    match context.mode {
        DisplayMode::Text80x25 => handle_key(key, context),
        DisplayMode::Graphics640x480x16 => None,
    }
}

/// Backspace on an empty input buffer changes nothing and erases nothing,
/// so any number of them in a row leave the buffer empty.
pub proof fn lemma_backspace_on_empty(
    before: AppContext,
    after: AppContext,
    r: Option<ScreenEffect>,
)
    requires
        before.command_cache@.len() == 0,
        handled(Key::Unicode(BACKSPACE), before, after, r),
    ensures
        after == before,
        after.command_cache@.len() == 0,
        r is None,
{
}

} // verus!
