//! From the words of the command line to the action to take.
//!
//! A single word that is no reserved name connects to the profile of that
//! name at once. Everything else is read as a structured command first,
//! which is then resolved to an action.

use crate::failure::Failure;
use crate::text::text_eq;
use vstd::prelude::*;

verus! {

/// The names that always select a built-in command, never a stored
/// profile.
pub open spec fn is_reserved_name(word: Seq<char>) -> bool {
    word == "add"@ || word == "list"@ || word == "ls"@ || word == "remove"@ || word == "rm"@
        || word == "help"@ || word == "--help"@ || word == "-h"@
}

/// Whether a word is a reserved name.
pub fn is_reserved(word: &str) -> (reserved: bool)
    ensures
        reserved == is_reserved_name(word@),
{
    text_eq(word, "add") || text_eq(word, "list") || text_eq(word, "ls") || text_eq(word, "remove")
        || text_eq(word, "rm") || text_eq(word, "help") || text_eq(word, "--help") || text_eq(
        word,
        "-h",
    )
}

/// How an invocation is read.
#[derive(Debug, PartialEq, Eq)]
pub enum Route {
    /// Connect to the profile of this name; the store decides whether it
    /// exists.
    Connect(String),
    /// Read the words as a structured command.
    Structured,
}

/// Whether the words, the program's name first, are the bare form: one
/// word after the program's name, and that word no reserved name.
pub open spec fn is_bare(words: Seq<String>) -> bool {
    words.len() == 2 && !is_reserved_name(words[1]@)
}

/// How the words of the command line are read: the bare form connects to
/// the profile that its word names, everything else is a structured
/// command.
pub open spec fn routing(words: Seq<String>) -> Route {
    if is_bare(words) {
        Route::Connect(words[1])
    } else {
        Route::Structured
    }
}

/// Decides from the words of the command line, the program's name first,
/// whether to connect at once.
pub fn route(words: &Vec<String>) -> (way: Route)
    ensures
        way == routing(words@),
{
    if words.len() == 2 && !is_reserved(words[1].as_str()) {
        Route::Connect(words[1].clone())
    } else {
        Route::Structured
    }
}

/// A structured command, as read from the command line.
#[derive(Debug, PartialEq, Eq)]
pub enum Command {
    /// `add <profile> -h <host> [-u <user>] [-p <port>]`
    Add { profile: String, host: String, user: Option<String>, port: Option<u16> },
    /// `list`, `ls`
    List,
    /// `remove <profile>`, `rm <profile>`
    Remove { profile: String },
    /// Any other leading word, with the words that follow it.
    External(Vec<String>),
}

/// What an invocation asks for.
#[derive(Debug, PartialEq, Eq)]
pub enum Action {
    Add { profile: String, host: String, user: Option<String>, port: Option<u16> },
    List,
    Remove { profile: String },
    Connect { profile: String },
}

/// The action that a structured command stands for. Words that are no known
/// command connect to the profile that the first of them names, and fail
/// where there is no word at all.
pub open spec fn resolution(command: Command) -> Result<Action, Failure> {
    match command {
        Command::Add { profile, host, user, port } => Ok(Action::Add { profile, host, user, port }),
        Command::List => Ok(Action::List),
        Command::Remove { profile } => Ok(Action::Remove { profile }),
        Command::External(words) => if words@.len() > 0 {
            Ok(Action::Connect { profile: words@[0] })
        } else {
            Err(Failure::NoProfileSpecified)
        },
    }
}

/// Resolves a structured command to an action.
pub fn resolve(command: Command) -> (resolved: Result<Action, Failure>)
    ensures
        resolved == resolution(command),
{
    match command {
        Command::Add { profile, host, user, port } => Ok(Action::Add { profile, host, user, port }),
        Command::List => Ok(Action::List),
        Command::Remove { profile } => Ok(Action::Remove { profile }),
        Command::External(words) => if words.len() > 0 {
            Ok(Action::Connect { profile: words[0].clone() })
        } else {
            Err(Failure::NoProfileSpecified)
        },
    }
}

/// A reserved name as the only word never connects: it is read as a
/// structured command, and the listing command resolves to the listing.
pub proof fn lemma_reserved_word_never_connects(words: Seq<String>)
    requires
        words.len() == 2,
        is_reserved_name(words[1]@),
    ensures
        routing(words) == Route::Structured,
        resolution(Command::List) == Ok::<Action, Failure>(Action::List),
{
}

} // verus!
