//! One handler for each built-in command.
//!
//! A handler takes the command's argument and what the operating system
//! answered, and returns the command's result. Each turns a failure of the
//! system into a description of its own; none fails itself.

use vstd::prelude::*;
use vstd::string::*;
use crate::reply::{CommandResult, Outcome};
use crate::step::{Step, StepModel};
use crate::text::{concat, find_char, join_lines, joined, same_text};

verus! {

/// An answer of the system that is a text, or the description of a failure.
pub open spec fn text_answer(answer: Result<String, String>) -> Result<Seq<char>, Seq<char>> {
    match answer {
        Ok(text) => Ok(text@),
        Err(cause) => Err(cause@),
    }
}

/// An answer of the system that is nothing, or the description of a failure.
pub open spec fn plain_answer(answer: Result<(), String>) -> Result<(), Seq<char>> {
    match answer {
        Ok(_) => Ok(()),
        Err(cause) => Err(cause@),
    }
}

/// The result of `hello`.
pub open spec fn hello_outcome() -> Outcome {
    Outcome::Output("Hello, user!"@)
}

/// Greets the user.
pub fn hello() -> (result: CommandResult)
    ensures
        result@ == hello_outcome(),
{
    CommandResult::Output(String::from_str("Hello, user!"))
}

/// The result of `date`, given the local date as `YYYY-MM-DD`.
pub open spec fn date_outcome(today: Seq<char>) -> Outcome {
    Outcome::Output("Today's date is "@ + today)
}

/// Shows the local date, which the caller has read and formatted.
pub fn date(today: &str) -> (result: CommandResult)
    ensures
        result@ == date_outcome(today@),
{
    CommandResult::Output(concat("Today's date is ", today))
}

/// The result of `time`, given the local time as `HH:MM:SS`.
pub open spec fn time_outcome(now: Seq<char>) -> Outcome {
    Outcome::Output("The current time is "@ + now)
}

/// Shows the local time, which the caller has read and formatted.
pub fn time(now: &str) -> (result: CommandResult)
    ensures
        result@ == time_outcome(now@),
{
    CommandResult::Output(concat("The current time is ", now))
}

/// The result of `clear`: the control sequence that erases the screen and
/// puts the cursor at the top left.
pub open spec fn clear_outcome() -> Outcome {
    Outcome::Output("\x1B[2J\x1B[1;1H"@)
}

/// Clears the screen of a terminal that the result is printed to.
pub fn clear() -> (result: CommandResult)
    ensures
        result@ == clear_outcome(),
{
    CommandResult::Output(String::from_str("\x1B[2J\x1B[1;1H"))
}

/// The result of `pwd`, given the system's answer.
pub open spec fn pwd_outcome(current: Result<Seq<char>, Seq<char>>) -> Outcome {
    match current {
        Ok(path) => Outcome::Output(path),
        Err(cause) => Outcome::Failure("Error retrieving current directory: "@ + cause),
    }
}

/// Shows the current working directory.
pub fn pwd(current: Result<String, String>) -> (result: CommandResult)
    ensures
        result@ == pwd_outcome(text_answer(current)),
{
    match current {
        Ok(path) => CommandResult::Output(path),
        Err(cause) => CommandResult::Failure(
            concat("Error retrieving current directory: ", cause.as_str()),
        ),
    }
}

/// The names among the entries of a directory, in their order. An entry that
/// could not be read has no name and is left out.
pub open spec fn readable_names(entries: Seq<Option<Seq<char>>>) -> Seq<Seq<char>>
    decreases entries.len(),
{
    if entries.len() == 0 {
        Seq::empty()
    } else {
        let before = readable_names(entries.drop_last());
        match entries.last() {
            Some(name) => before.push(name),
            None => before,
        }
    }
}

/// The result of `ls`, given the system's answer.
pub open spec fn ls_outcome(listing: Result<Seq<Option<Seq<char>>>, Seq<char>>) -> Outcome {
    match listing {
        Ok(entries) => Outcome::Output(joined(readable_names(entries))),
        Err(cause) => Outcome::Failure("Error listing files: "@ + cause),
    }
}

/// The system's answer to a listing, as a mathematical value.
pub open spec fn listing_answer(listing: Result<Vec<Option<String>>, String>) -> Result<
    Seq<Option<Seq<char>>>,
    Seq<char>,
> {
    match listing {
        Ok(entries) => Ok(entries.deep_view()),
        Err(cause) => Err(cause@),
    }
}

/// Lists the entries of the current working directory, one on a line, in the
/// order in which the system gave them.
pub fn ls(listing: Result<Vec<Option<String>>, String>) -> (result: CommandResult)
    ensures
        result@ == ls_outcome(listing_answer(listing)),
{
    match listing {
        Ok(entries) => {
            let mut names: Vec<&str> = Vec::new();
            let n = entries.len();
            let mut i: usize = 0;
            while i < n
                invariant
                    i <= n,
                    n == entries.len(),
                    names.deep_view() == readable_names(entries.deep_view().take(i as int)),
                decreases n - i,
            {
                let ghost before = entries.deep_view().take(i as int);
                let ghost seen = names.deep_view();
                assert(entries.deep_view().take(i + 1).drop_last() =~= before);
                match &entries[i] {
                    Some(name) => {
                        names.push(name.as_str());
                        assert(names.deep_view() =~= seen.push(name@));
                    },
                    None => {},
                }
                i += 1;
            }
            assert(entries.deep_view().take(n as int) =~= entries.deep_view());
            CommandResult::Output(join_lines(&names))
        },
        Err(cause) => CommandResult::Failure(concat("Error listing files: ", cause.as_str())),
    }
}

/// The environment variable that is asked first for the user's name.
pub open spec fn first_user_variable() -> Seq<char> {
    "USER"@
}

/// The environment variable that is asked when `name` was not set, if there
/// is one left to ask.
pub open spec fn user_variable_after(name: Seq<char>) -> Option<Seq<char>> {
    if name == "USER"@ {
        Some("USERNAME"@)
    } else {
        None
    }
}

/// What `whoami` does with the value of the variable `name`.
pub open spec fn whoami_step(name: Seq<char>, value: Option<Seq<char>>) -> StepModel {
    match value {
        Some(user) => StepModel::Done(Outcome::Output("Current user: "@ + user)),
        None => match user_variable_after(name) {
            Some(next) => StepModel::Variable(next),
            None => StepModel::Done(Outcome::Failure("Could not retrieve username"@)),
        },
    }
}

/// `whoami` asks for two variables at most: the first one, and the one that
/// it names when the first has no value. Whatever the second holds ends the
/// command.
pub proof fn lemma_whoami_ends(name: Seq<char>, value: Option<Seq<char>>, next: Option<Seq<char>>)
    ensures
        whoami_step(first_user_variable(), None) == StepModel::Variable("USERNAME"@),
        whoami_step(name, value) matches StepModel::Variable(asked) ==> whoami_step(
            asked,
            next,
        ) is Done,
{
    reveal_strlit("USER");
    reveal_strlit("USERNAME");
    assert("USER"@.len() != "USERNAME"@.len());
}

/// The value of an environment variable, as a mathematical value.
pub open spec fn value_answer(value: Option<String>) -> Option<Seq<char>> {
    match value {
        Some(text) => Some(text@),
        None => None,
    }
}

/// Shows the user's name. `value` is the value of the variable `name`, `None`
/// where it is not set or is no text. A variable without a value sends the
/// command on to the next variable of the list; the last one ends it.
pub fn whoami(name: &str, value: Option<String>) -> (step: Step)
    ensures
        step@ == whoami_step(name@, value_answer(value)),
{
    match value {
        Some(user) => Step::Done(CommandResult::Output(concat("Current user: ", user.as_str()))),
        None => {
            if same_text(name, "USER") {
                Step::Variable(String::from_str("USERNAME"))
            } else {
                Step::Done(CommandResult::Failure(String::from_str("Could not retrieve username")))
            }
        },
    }
}

/// The lines of the help text.
pub open spec fn help_lines() -> Seq<Seq<char>> {
    seq![
        "Available commands:"@,
        "  hello      - Greets the user."@,
        "  date       - Shows the current date."@,
        "  time       - Shows the current time."@,
        "  clear      - Clears the screen."@,
        "  pwd        - Prints the current working directory."@,
        "  ls         - Lists files in the current directory."@,
        "  whoami     - Displays the current username."@,
        "  echo [msg] - Displays the message entered."@,
        "  cat [file] - Displays the contents of a file."@,
        "  touch [file] - Creates an empty file."@,
        "  rm [file]  - Deletes the specified file."@,
        "  write [file]  - Write in the specified file if it exists, if not create a new file."@,
        "  cd [dir]   - Changes the current directory."@,
        "  exit       - Exits the terminal."@,
    ]
}

/// The result of `help`.
pub open spec fn help_outcome() -> Outcome {
    Outcome::Output(joined(help_lines()))
}

/// Lists the commands, one on a line.
pub fn help() -> (result: CommandResult)
    ensures
        result@ == help_outcome(),
{
    let lines: Vec<&str> = vec![
        "Available commands:",
        "  hello      - Greets the user.",
        "  date       - Shows the current date.",
        "  time       - Shows the current time.",
        "  clear      - Clears the screen.",
        "  pwd        - Prints the current working directory.",
        "  ls         - Lists files in the current directory.",
        "  whoami     - Displays the current username.",
        "  echo [msg] - Displays the message entered.",
        "  cat [file] - Displays the contents of a file.",
        "  touch [file] - Creates an empty file.",
        "  rm [file]  - Deletes the specified file.",
        "  write [file]  - Write in the specified file if it exists, if not create a new file.",
        "  cd [dir]   - Changes the current directory.",
        "  exit       - Exits the terminal.",
    ];
    assert(lines.deep_view() =~= help_lines());
    CommandResult::Output(join_lines(&lines))
}

/// The result of `echo`.
pub open spec fn echo_outcome(message: Seq<char>) -> Outcome {
    Outcome::Output(message)
}

/// Hands its argument back unchanged.
pub fn echo(message: &str) -> (result: CommandResult)
    ensures
        result@ == echo_outcome(message@),
{
    CommandResult::Output(String::from_str(message))
}

/// The result of `cat`, given the system's answer.
pub open spec fn cat_outcome(contents: Result<Seq<char>, Seq<char>>) -> Outcome {
    match contents {
        Ok(text) => Outcome::Output(text),
        Err(cause) => Outcome::Failure("Error reading file: "@ + cause),
    }
}

/// Shows the contents of a file as one text.
pub fn cat(contents: Result<String, String>) -> (result: CommandResult)
    ensures
        result@ == cat_outcome(text_answer(contents)),
{
    match contents {
        Ok(text) => CommandResult::Output(text),
        Err(cause) => CommandResult::Failure(concat("Error reading file: ", cause.as_str())),
    }
}

/// The result of `touch`, given the system's answer.
pub open spec fn touch_outcome(filename: Seq<char>, created: Result<(), Seq<char>>) -> Outcome {
    match created {
        Ok(_) => Outcome::Output("Created file: "@ + filename),
        Err(cause) => Outcome::Failure("Error creating file: "@ + cause),
    }
}

/// Confirms that an empty file was created, or says why it was not.
pub fn touch(filename: &str, created: Result<(), String>) -> (result: CommandResult)
    ensures
        result@ == touch_outcome(filename@, plain_answer(created)),
{
    match created {
        Ok(_) => CommandResult::Output(concat("Created file: ", filename)),
        Err(cause) => CommandResult::Failure(concat("Error creating file: ", cause.as_str())),
    }
}

/// The result of `rm`, given the system's answer.
pub open spec fn rm_outcome(filename: Seq<char>, removed: Result<(), Seq<char>>) -> Outcome {
    match removed {
        Ok(_) => Outcome::Output("Deleted file: "@ + filename),
        Err(cause) => Outcome::Failure("Error deleting file: "@ + cause),
    }
}

/// Confirms that a file was deleted, or says why it was not. A file that was
/// not there is a failure like any other.
pub fn rm(filename: &str, removed: Result<(), String>) -> (result: CommandResult)
    ensures
        result@ == rm_outcome(filename@, plain_answer(removed)),
{
    match removed {
        Ok(_) => CommandResult::Output(concat("Deleted file: ", filename)),
        Err(cause) => CommandResult::Failure(concat("Error deleting file: ", cause.as_str())),
    }
}

/// The result of `cd`, given the system's answer.
pub open spec fn cd_outcome(path: Seq<char>, changed: Result<(), Seq<char>>) -> Outcome {
    match changed {
        Ok(_) => Outcome::Output("Changed directory to "@ + path),
        Err(cause) => Outcome::Failure("Error changing directory: "@ + cause),
    }
}

/// Confirms the new working directory, or says why it was not changed.
pub fn cd(path: &str, changed: Result<(), String>) -> (result: CommandResult)
    ensures
        result@ == cd_outcome(path@, plain_answer(changed)),
{
    match changed {
        Ok(_) => CommandResult::Output(concat("Changed directory to ", path)),
        Err(cause) => CommandResult::Failure(concat("Error changing directory: ", cause.as_str())),
    }
}

/// The file name in the argument of `write`: what stands before the first
/// space, or all of it where there is none.
pub open spec fn write_filename(args: Seq<char>) -> Seq<char> {
    match args.index_of_first(' ') {
        Some(at) => args.take(at),
        None => args,
    }
}

/// The content in the argument of `write`: what stands behind the first
/// space, further spaces included.
pub open spec fn write_content(args: Seq<char>) -> Seq<char> {
    match args.index_of_first(' ') {
        Some(at) => args.skip(at + 1),
        None => Seq::empty(),
    }
}

/// Whether the argument of `write` names a file and gives a content.
pub open spec fn write_is_well_formed(args: Seq<char>) -> bool {
    write_filename(args).len() > 0 && write_content(args).len() > 0
}

/// What `write` does with its argument: it asks for the content and a line
/// feed to be appended to the file, or, where the file name or the content is
/// missing, ends with the usage message and asks for nothing.
pub open spec fn write_step(args: Seq<char>) -> StepModel {
    if write_is_well_formed(args) {
        StepModel::AppendLine {
            filename: write_filename(args),
            line: write_content(args) + seq!['\n'],
        }
    } else {
        StepModel::Done(Outcome::Failure("Usage: write <filename> \"<text>\""@))
    }
}

/// Splits the argument of `write` and says what is to be appended where.
pub fn write(args: &str) -> (step: Step)
    ensures
        step@ == write_step(args@),
{
    proof {
        args@.index_of_first_ensures(' ');
        reveal_strlit("\n");
        assert("\n"@ =~= seq!['\n']);
    }
    let n = args.unicode_len();
    match find_char(args, ' ') {
        Some(at) => {
            let filename = args.substring_char(0, at);
            let content = args.substring_char(at + 1, n);
            if filename.unicode_len() == 0 || content.unicode_len() == 0 {
                Step::Done(CommandResult::Failure(String::from_str("Usage: write <filename> \"<text>\"")))
            } else {
                Step::AppendLine {
                    filename: String::from_str(filename),
                    line: concat(content, "\n"),
                }
            }
        },
        None => Step::Done(CommandResult::Failure(String::from_str("Usage: write <filename> \"<text>\""))),
    }
}

/// Why a line could not be appended to a file.
#[derive(Debug, PartialEq, Eq)]
pub enum AppendFault {
    /// The file could not be opened or created.
    Open(String),
    /// The file was opened, and writing to it failed.
    Write(String),
}

/// Why a line could not be appended to a file, as a mathematical value.
pub enum AppendFaultModel {
    Open(Seq<char>),
    Write(Seq<char>),
}

impl View for AppendFault {
    type V = AppendFaultModel;

    open spec fn view(&self) -> AppendFaultModel {
        match self {
            AppendFault::Open(cause) => AppendFaultModel::Open(cause@),
            AppendFault::Write(cause) => AppendFaultModel::Write(cause@),
        }
    }
}

/// The system's answer to an append, as a mathematical value.
pub open spec fn append_answer(appended: Result<(), AppendFault>) -> Result<(), AppendFaultModel> {
    match appended {
        Ok(_) => Ok(()),
        Err(fault) => Err(fault@),
    }
}

/// The result of `write`, given the system's answer.
pub open spec fn write_outcome(filename: Seq<char>, appended: Result<(), AppendFaultModel>) -> Outcome {
    match appended {
        Ok(_) => Outcome::Output("Text written to "@ + filename),
        Err(AppendFaultModel::Open(cause)) => Outcome::Failure("Error opening file: "@ + cause),
        Err(AppendFaultModel::Write(cause)) => Outcome::Failure("Error writing to file: "@ + cause),
    }
}

/// Confirms that the line was appended, or says why it was not.
pub fn write_done(filename: &str, appended: Result<(), AppendFault>) -> (result: CommandResult)
    ensures
        result@ == write_outcome(filename@, append_answer(appended)),
{
    match appended {
        Ok(_) => CommandResult::Output(concat("Text written to ", filename)),
        Err(AppendFault::Open(cause)) => CommandResult::Failure(
            concat("Error opening file: ", cause.as_str()),
        ),
        Err(AppendFault::Write(cause)) => CommandResult::Failure(
            concat("Error writing to file: ", cause.as_str()),
        ),
    }
}

/// The result for a line that selects no command.
pub open spec fn unknown_outcome(line: Seq<char>) -> Outcome {
    Outcome::Output("Unknown command: "@ + line)
}

/// Says that the line is no command. This is a result like any other, not a
/// failure.
pub fn unknown(line: &str) -> (result: CommandResult)
    ensures
        result@ == unknown_outcome(line@),
{
    CommandResult::Output(concat("Unknown command: ", line))
}

} // verus!
