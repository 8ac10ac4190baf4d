//! The command interpreter: parses a submitted line into a command and
//! carries it out against the console session.
use crate::keyboard::{AppContext, DisplayMode};
use crate::text::{is_white, is_whitespace, same_text};
use vstd::prelude::*;

verus! {

/// A command as plain values.
pub ghost enum CommandView {
    Help,
    Echo(Seq<char>),
    Prompt(Seq<char>),
    Unknown(Seq<char>),
    Draw,
}

/// A submitted line, parsed.
pub enum Commands {
    Help,
    Echo { message: String },
    Prompt { prompt: String },
    Unknown { command: String },
    Draw,
}

impl View for Commands {
    type V = CommandView;

    open spec fn view(&self) -> CommandView {
        match self {
            Commands::Help => CommandView::Help,
            Commands::Echo { message } => CommandView::Echo(message@),
            Commands::Prompt { prompt } => CommandView::Prompt(prompt@),
            Commands::Unknown { command } => CommandView::Unknown(command@),
            Commands::Draw => CommandView::Draw,
        }
    }
}

/// The first index at or after `i` that holds no whitespace, or the end.
pub open spec fn skip_white(s: Seq<char>, i: int) -> int
    decreases s.len() - i,
{
    if i < 0 || i >= s.len() || !is_white(s[i]) {
        i
    } else {
        skip_white(s, i + 1)
    }
}

/// The first index at or after `i` that holds whitespace, or the end.
pub open spec fn skip_word(s: Seq<char>, i: int) -> int
    decreases s.len() - i,
{
    if i < 0 || i >= s.len() || is_white(s[i]) {
        i
    } else {
        skip_word(s, i + 1)
    }
}

/// The first whitespace-separated word of the line, empty when there is none.
pub open spec fn command_word(s: Seq<char>) -> Seq<char> {
    s.subrange(skip_white(s, 0), skip_word(s, skip_white(s, 0)))
}

/// What follows the command word when the line starts with it, without the
/// single space after it; empty when no space follows the word or the line
/// starts with whitespace.
pub open spec fn argument_text(s: Seq<char>) -> Seq<char> {
    let end = skip_word(s, 0);
    if skip_white(s, 0) == 0 && end < s.len() && s[end] == ' ' {
        s.subrange(end + 1, s.len() as int)
    } else {
        Seq::empty()
    }
}

/// The command that a submitted line stands for.
pub open spec fn parse_line(s: Seq<char>) -> CommandView {
    let word = command_word(s);
    if word == "help"@ {
        CommandView::Help
    } else if word == "echo"@ {
        CommandView::Echo(argument_text(s))
    } else if word == "prompt"@ {
        CommandView::Prompt(argument_text(s))
    } else if word == "draw"@ {
        CommandView::Draw
    } else {
        CommandView::Unknown(s)
    }
}

pub open spec fn help_text() -> Seq<char> {
    "Available commands:\nhelp - display this help message\necho - echo the command cache\n"@
}

/// The text that carrying out `c` prints, starting with the line break
/// that ends the submitted line.
pub open spec fn command_output(c: CommandView) -> Seq<char> {
    "\n"@ + match c {
        CommandView::Help => help_text(),
        CommandView::Echo(message) => message + "\n"@,
        CommandView::Unknown(line) => "Unknown command: "@ + line + "\n"@,
        _ => Seq::empty(),
    }
}

/// The prompt after carrying out `c` with prompt `p`.
pub open spec fn prompt_after(c: CommandView, p: Seq<char>) -> Seq<char> {
    match c {
        CommandView::Prompt(q) => q,
        _ => p,
    }
}

fn skip_white_from(s: &str, n: usize, i: usize) -> (r: usize)
    requires
        n == s@.len(),
        i <= n,
    ensures
        r == skip_white(s@, i as int),
        r <= n,
{
    let mut k = i;
    while k < n && is_whitespace(s.get_char(k))
        invariant
            n == s@.len(),
            i <= k <= n,
            skip_white(s@, k as int) == skip_white(s@, i as int),
        decreases n - k,
    {
        k = k + 1;
    }
    k
}

fn skip_word_from(s: &str, n: usize, i: usize) -> (r: usize)
    requires
        n == s@.len(),
        i <= n,
    ensures
        r == skip_word(s@, i as int),
        i <= r <= n,
{
    let mut k = i;
    while k < n && !is_whitespace(s.get_char(k))
        invariant
            n == s@.len(),
            i <= k <= n,
            skip_word(s@, k as int) == skip_word(s@, i as int),
        decreases n - k,
    {
        k = k + 1;
    }
    k
}

impl Commands {
    /// Parses the session's input buffer. The command word is the first
    /// whitespace-separated word; the argument is the rest of the line
    /// after the single space that follows the word.
    pub fn from_str(context: &mut AppContext) -> (r: Commands)
        ensures
            *final(context) == *old(context),
            r@ == parse_line(old(context).command_cache@),
    {
        let line = context.command_cache.as_str();
        let n = line.unicode_len();
        let start = skip_white_from(line, n, 0);
        let end = skip_word_from(line, n, start);
        let word = line.substring_char(start, end);
        let args: String = if start == 0 && end < n && line.get_char(end) == ' ' {
            String::from_str(line.substring_char(end + 1, n))
        } else {
            String::new()
        };
        proof {
            assert(skip_white(line@, 0) == 0 ==> skip_word(line@, 0) == end);
        }
        if same_text(word, "help") {
            Commands::Help
        } else if same_text(word, "echo") {
            Commands::Echo { message: args }
        } else if same_text(word, "prompt") {
            Commands::Prompt { prompt: args }
        } else if same_text(word, "draw") {
            Commands::Draw
        } else {
            Commands::Unknown { command: context.command_cache.clone() }
        }
    }
    /// Carries the command out: returns the text to print, starting with the
    /// line break that ends the submitted line, and sets the prompt for
    /// `prompt`. The input buffer and the display mode are left alone.
    pub fn execute(&self, context: &mut AppContext) -> (out: String)
        ensures
            out@ == command_output(self@),
            final(context).prompt@ == prompt_after(self@, old(context).prompt@),
            final(context).command_cache == old(context).command_cache,
            final(context).mode == old(context).mode,
    {
        let mut out = String::from_str("\n");
        match self {
            Commands::Help => {
                out.append(
                    "Available commands:\nhelp - display this help message\necho - echo the command cache\n",
                );
            },
            Commands::Echo { message } => {
                out.append(message.as_str());
                out.append("\n");
            },
            Commands::Prompt { prompt } => {
                context.prompt = prompt.clone();
            },
            Commands::Draw => {},
            Commands::Unknown { command } => {
                out.append("Unknown command: ");
                out.append(command.as_str());
                out.append("\n");
            },
        }
        out
    }
}

/// Submits the input buffer: parses and carries out the command, then
/// clears the buffer. Returns what is printed: the command's output followed
/// by the prompt, which may just have changed.
pub fn handle_command(context: &mut AppContext) -> (out: String)
    ensures
        final(context).prompt@ == prompt_after(
            parse_line(old(context).command_cache@),
            old(context).prompt@,
        ),
        out@ == command_output(parse_line(old(context).command_cache@)) + final(context).prompt@,
        final(context).command_cache@ == Seq::<char>::empty(),
        final(context).mode == old(context).mode,
{
    let command = Commands::from_str(context);
    let mut out = command.execute(context);
    out.append(context.prompt.as_str());
    context.command_cache = String::new();
    out
}

} // verus!
