//! What a submitted line asks for: a built-in command, or a message to the
//! model.

use vstd::prelude::*;
use crate::lines::{trim, trimmed};
use crate::text::{chars_of, has_prefix, slice_of, starts_with, string_of, vec_eq};

verus! {

/// What a submitted line asks for.
#[derive(Debug)]
pub enum Command {
    /// Nothing: the line is blank.
    Empty,
    /// `/quit`, `/exit` or `/q`.
    Quit,
    /// `/clear`.
    Clear,
    /// `/sessions`.
    Sessions,
    /// `/help`.
    Help,
    /// `/provider`.
    Providers,
    /// `/provider` and a name.
    SwitchProvider(String),
    /// `/key` and a key.
    SetKey(String),
    /// `/load` and the id of a session.
    Load(String),
    /// Anything else: a message to the model.
    Message(String),
}

/// What a submitted line asks for, as its text.
pub enum CommandView {
    Empty,
    Quit,
    Clear,
    Sessions,
    Help,
    Providers,
    SwitchProvider(Seq<char>),
    SetKey(Seq<char>),
    Load(Seq<char>),
    Message(Seq<char>),
}

impl View for Command {
    type V = CommandView;

    open spec fn view(&self) -> CommandView {
        match self {
            Command::Empty => CommandView::Empty,
            Command::Quit => CommandView::Quit,
            Command::Clear => CommandView::Clear,
            Command::Sessions => CommandView::Sessions,
            Command::Help => CommandView::Help,
            Command::Providers => CommandView::Providers,
            Command::SwitchProvider(s) => CommandView::SwitchProvider(s@),
            Command::SetKey(s) => CommandView::SetKey(s@),
            Command::Load(s) => CommandView::Load(s@),
            Command::Message(s) => CommandView::Message(s@),
        }
    }
}

/// What follows a prefix, without the white space around it.
pub open spec fn argument_after(line: Seq<char>, prefix: Seq<char>) -> Seq<char> {
    trim(line.subrange(prefix.len() as int, line.len() as int))
}

/// What a line asks for. The white space around it does not count; a command
/// is a line that is one of the command words, or begins with one that takes
/// an argument and a space.
pub open spec fn command_of(input: Seq<char>) -> CommandView {
    let line = trim(input);
    if line.len() == 0 {
        CommandView::Empty
    } else if line == "/quit"@ || line == "/exit"@ || line == "/q"@ {
        CommandView::Quit
    } else if line == "/clear"@ {
        CommandView::Clear
    } else if line == "/sessions"@ {
        CommandView::Sessions
    } else if line == "/help"@ {
        CommandView::Help
    } else if line == "/provider"@ {
        CommandView::Providers
    } else if starts_with(line, "/provider "@) {
        CommandView::SwitchProvider(argument_after(line, "/provider "@))
    } else if starts_with(line, "/key "@) {
        CommandView::SetKey(argument_after(line, "/key "@))
    } else if starts_with(line, "/load "@) {
        CommandView::Load(argument_after(line, "/load "@))
    } else {
        CommandView::Message(line)
    }
}

fn is(line: &Vec<char>, word: &str) -> (b: bool)
    ensures
        b == (line@ == word@),
{
    let w = chars_of(word);
    vec_eq(line, &w)
}

fn argument(line: &Vec<char>, prefix: &str) -> (out: Option<String>)
    ensures
        out is Some <==> starts_with(line@, prefix@),
        out is Some ==> out->0@ == argument_after(line@, prefix@),
{
    let p = chars_of(prefix);
    if has_prefix(line, &p) {
        let rest = slice_of(line, p.len(), line.len());
        let t = trimmed(&rest);
        Some(string_of(&t))
    } else {
        None
    }
}

/// Reads what a submitted line asks for.
pub fn parse_command(input: &str) -> (out: Command)
    ensures
        out@ == command_of(input@),
{
    let line = trimmed(&chars_of(input));
    if line.len() == 0 {
        return Command::Empty;
    }
    if is(&line, "/quit") || is(&line, "/exit") || is(&line, "/q") {
        return Command::Quit;
    }
    if is(&line, "/clear") {
        return Command::Clear;
    }
    if is(&line, "/sessions") {
        return Command::Sessions;
    }
    if is(&line, "/help") {
        return Command::Help;
    }
    if is(&line, "/provider") {
        return Command::Providers;
    }
    match argument(&line, "/provider ") {
        Some(name) => {
            return Command::SwitchProvider(name);
        },
        None => {},
    }
    match argument(&line, "/key ") {
        Some(key) => {
            return Command::SetKey(key);
        },
        None => {},
    }
    match argument(&line, "/load ") {
        Some(id) => {
            return Command::Load(id);
        },
        None => {},
    }
    Command::Message(string_of(&line))
}

} // verus!
