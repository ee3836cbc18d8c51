//! What is to happen next for a command: it is finished, or it needs one
//! thing from the operating system.
//!
//! The library never touches the system. A front end carries the request out
//! and hands the answer to the handler that the variant names; the handler
//! returns the command's result, or, for `whoami`, possibly one more request.

use vstd::prelude::*;
use crate::reply::{CommandResult, Outcome};

verus! {

/// The next step of a command.
#[derive(Debug, PartialEq, Eq)]
pub enum Step {
    /// The command is finished, with this result.
    Done(CommandResult),
    /// Wanted: the current working directory. The answer goes to `pwd`.
    CurrentDir,
    /// Wanted: the entries of the current working directory. The answer goes
    /// to `ls`.
    ListDir,
    /// Wanted: the value of the named environment variable. The answer goes
    /// to `whoami`, together with the name.
    Variable(String),
    /// Wanted: the contents of the file at this path. The answer goes to
    /// `cat`.
    ReadFile(String),
    /// Wanted: an empty file at this path, created or truncated. The answer
    /// goes to `touch`, together with the path.
    CreateFile(String),
    /// Wanted: the file at this path removed. The answer goes to `rm`,
    /// together with the path.
    RemoveFile(String),
    /// Wanted: the working directory of the process set to this path. The
    /// answer goes to `cd`, together with the path.
    ChangeDir(String),
    /// Wanted: `line` added at the end of the file named `filename`, which is
    /// created if it is absent and never truncated. The answer goes to
    /// `write_done`, together with the file's name.
    AppendLine { filename: String, line: String },
}

/// A step as a mathematical value.
pub enum StepModel {
    Done(Outcome),
    CurrentDir,
    ListDir,
    Variable(Seq<char>),
    ReadFile(Seq<char>),
    CreateFile(Seq<char>),
    RemoveFile(Seq<char>),
    ChangeDir(Seq<char>),
    AppendLine { filename: Seq<char>, line: Seq<char> },
}

impl View for Step {
    type V = StepModel;

    open spec fn view(&self) -> StepModel {
        match self {
            Step::Done(result) => StepModel::Done(result@),
            Step::CurrentDir => StepModel::CurrentDir,
            Step::ListDir => StepModel::ListDir,
            Step::Variable(name) => StepModel::Variable(name@),
            Step::ReadFile(path) => StepModel::ReadFile(path@),
            Step::CreateFile(path) => StepModel::CreateFile(path@),
            Step::RemoveFile(path) => StepModel::RemoveFile(path@),
            Step::ChangeDir(path) => StepModel::ChangeDir(path@),
            Step::AppendLine { filename, line } => StepModel::AppendLine {
                filename: filename@,
                line: line@,
            },
        }
    }
}

} // verus!
