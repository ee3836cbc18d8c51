//! A command line as an interactive front end hands it on: the text that was
//! typed, without the white space around it.

use vstd::prelude::*;
use vstd::string::*;
use crate::text::{lemma_trimmed_is_trimmed, same_text, trim, trimmed};

verus! {

/// One line of input, trimmed.
#[derive(Debug, PartialEq, Eq)]
pub struct CommandLine {
    text: String,
}

impl View for CommandLine {
    type V = Seq<char>;

    closed spec fn view(&self) -> Seq<char> {
        self.text@
    }
}

impl CommandLine {
    /// A command line neither begins nor ends with white space.
    #[verifier::type_invariant]
    spec fn is_trimmed(self) -> bool {
        trimmed(self.text@) == self.text@
    }

    /// The line that was typed, without the white space around it.
    pub fn new(raw: &str) -> (line: CommandLine)
        ensures
            line@ == trimmed(raw@),
    {
        proof {
            lemma_trimmed_is_trimmed(raw@);
        }
        CommandLine { text: String::from_str(trim(raw)) }
    }

    /// The text of the line. Trimming it again changes nothing.
    pub fn as_str(&self) -> (text: &str)
        ensures
            text@ == self@,
            trimmed(text@) == text@,
    {
        proof {
            use_type_invariant(self);
        }
        self.text.as_str()
    }

    /// Whether nothing was typed but white space.
    pub fn is_empty(&self) -> (empty: bool)
        ensures
            empty == (self@.len() == 0),
    {
        self.text.as_str().is_empty()
    }

    /// Whether the line is the word that ends an interactive session.
    pub fn is_exit(&self) -> (exit: bool)
        ensures
            exit == (self@ == "exit"@),
    {
        same_text(self.text.as_str(), "exit")
    }
}

} // verus!
