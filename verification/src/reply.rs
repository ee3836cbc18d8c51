//! What a command hands back: one text, tagged as output or as failure.
//!
//! On the wire both are plain text and nothing tells them apart; the tag is
//! for callers inside the program.

use vstd::prelude::*;

verus! {

/// The result of one command.
#[derive(Debug, PartialEq, Eq)]
pub enum CommandResult {
    /// The command did what it was asked; this is what it has to say.
    Output(String),
    /// The command could not do it; this is the description of why.
    Failure(String),
}

/// A command's result as a mathematical value.
pub enum Outcome {
    Output(Seq<char>),
    Failure(Seq<char>),
}

impl Outcome {
    /// The text, whatever the tag.
    pub open spec fn text(self) -> Seq<char> {
        match self {
            Outcome::Output(text) => text,
            Outcome::Failure(text) => text,
        }
    }

    /// Whether the command failed.
    pub open spec fn is_failure(self) -> bool {
        self is Failure
    }
}

impl View for CommandResult {
    type V = Outcome;

    open spec fn view(&self) -> Outcome {
        match self {
            CommandResult::Output(text) => Outcome::Output(text@),
            CommandResult::Failure(text) => Outcome::Failure(text@),
        }
    }
}

impl CommandResult {
    /// The text to show or to send.
    pub fn text(&self) -> (text: &str)
        ensures
            text@ == self@.text(),
    {
        match self {
            CommandResult::Output(text) => text.as_str(),
            CommandResult::Failure(text) => text.as_str(),
        }
    }

    /// The text to show or to send, by value.
    pub fn into_text(self) -> (text: String)
        ensures
            text@ == self@.text(),
    {
        match self {
            CommandResult::Output(text) => text,
            CommandResult::Failure(text) => text,
        }
    }

    /// Whether the command failed.
    pub fn is_failure(&self) -> (failed: bool)
        ensures
            failed == self@.is_failure(),
    {
        match self {
            CommandResult::Output(_) => false,
            CommandResult::Failure(_) => true,
        }
    }
}

} // verus!
