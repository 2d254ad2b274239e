//! The command interpreter: one line of text to one structured request.

use vstd::prelude::*;
use crate::text::{find_char, find_from, str_eq, trim, trim_str};

verus! {

/// A request typed by the player.
#[derive(Debug, PartialEq, Eq)]
pub enum Command {
    /// `help`, with a topic when one was given.
    Help(Option<String>),
    /// Fortify the node of the given name.
    Fortify(String),
    /// Scan the node of the given name.
    Scan(String),
    Quit,
    /// Anything not understood.
    Invalid,
}

/// A command with its text arguments as character sequences.
pub enum CommandView {
    Help(Option<Seq<char>>),
    Fortify(Seq<char>),
    Scan(Seq<char>),
    Quit,
    Invalid,
}

impl View for Command {
    type V = CommandView;

    open spec fn view(&self) -> CommandView {
        match self {
            Command::Help(None) => CommandView::Help(None),
            Command::Help(Some(t)) => CommandView::Help(Some(t@)),
            Command::Fortify(n) => CommandView::Fortify(n@),
            Command::Scan(n) => CommandView::Scan(n@),
            Command::Quit => CommandView::Quit,
            Command::Invalid => CommandView::Invalid,
        }
    }
}

/// The command of the form `name(arg)`.
pub open spec fn call_form(name: Seq<char>, arg: Seq<char>) -> CommandView {
    if name == "help"@ {
        CommandView::Help(
            if arg.len() == 0 {
                None
            } else {
                Some(arg)
            },
        )
    } else if name == "fortify"@ {
        CommandView::Fortify(arg)
    } else if name == "scan"@ {
        CommandView::Scan(arg)
    } else {
        CommandView::Invalid
    }
}

/// The command of a line without a pair of parentheses, already trimmed.
pub open spec fn word_form(word: Seq<char>) -> CommandView {
    if word == "q"@ || word == "quit"@ {
        CommandView::Quit
    } else if word == "help"@ {
        CommandView::Help(None)
    } else {
        CommandView::Invalid
    }
}

/// What a line means. A line with a `(` and a later `)` is a call: the name is
/// what stands before the first `(`, trimmed, and the argument what stands
/// between it and the first `)` after it. Any other line is a bare word.
pub open spec fn parse(s: Seq<char>) -> CommandView {
    match find_from(s, '(', 0) {
        Some(open) => match find_from(s, ')', open + 1) {
            Some(close) => call_form(trim(s.subrange(0, open)), s.subrange(open + 1, close)),
            None => word_form(trim(s)),
        },
        None => word_form(trim(s)),
    }
}

/// Interprets one line of input. Never fails: what is not understood is `Invalid`.
pub fn parse_command(input: &str) -> (r: Command)
    ensures
        r@ == parse(input@),
{
    if let Some(open) = find_char(input, '(', 0) {
        if let Some(close) = find_char(input, ')', open + 1) {
            let name = trim_str(input.substring_char(0, open));
            let arg = input.substring_char(open + 1, close);
            if str_eq(name, "help") {
                if arg.unicode_len() == 0 {
                    return Command::Help(None);
                } else {
                    return Command::Help(Some(String::from_str(arg)));
                }
            } else if str_eq(name, "fortify") {
                return Command::Fortify(String::from_str(arg));
            } else if str_eq(name, "scan") {
                return Command::Scan(String::from_str(arg));
            } else {
                return Command::Invalid;
            }
        }
    }
    let word = trim_str(input);
    if str_eq(word, "q") || str_eq(word, "quit") {
        Command::Quit
    } else if str_eq(word, "help") {
        Command::Help(None)
    } else {
        Command::Invalid
    }
}

} // verus!
