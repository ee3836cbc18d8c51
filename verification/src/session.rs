//! The full-screen interactive front end, as a state machine.
//!
//! The session holds the line that is being typed and the lines that are
//! shown above it. A caller draws the session, waits for a key with a short
//! timeout, and hands the key to `Session::on_key`; the session says whether
//! to go on, to leave, or to carry a command's step out. The session itself
//! neither draws nor reads nor runs anything.

use vstd::prelude::*;
use crate::dispatch::{dispatched, execute_command};
use crate::line::CommandLine;
use crate::step::{Step, StepModel};
use crate::text::{concat, trimmed};

verus! {

/// How long the caller waits for a key before it draws again, in
/// milliseconds. A command that is carried out adds its own time to that.
pub const POLL_MILLIS: u64 = 100;

/// A key that was pressed.
#[derive(Clone, Copy, Debug, PartialEq, Eq, Structural)]
pub enum Key {
    /// A character to add to the line.
    Char(char),
    /// Remove the last character of the line.
    Backspace,
    /// Commit the line.
    Enter,
    /// Any other key: nothing happens.
    Other,
}

/// What the caller does after a key.
#[derive(Debug, PartialEq, Eq)]
pub enum Turn {
    /// Draw again and wait for the next key.
    Continue,
    /// Leave the session.
    Exit,
    /// Carry this step of the committed command out, then go on.
    Run(Step),
}

/// A turn as a mathematical value.
pub enum TurnModel {
    Continue,
    Exit,
    Run(StepModel),
}

impl View for Turn {
    type V = TurnModel;

    open spec fn view(&self) -> TurnModel {
        match self {
            Turn::Continue => TurnModel::Continue,
            Turn::Exit => TurnModel::Exit,
            Turn::Run(step) => TurnModel::Run(step@),
        }
    }
}

/// The state of an interactive session.
#[derive(Debug, PartialEq, Eq)]
pub struct Session {
    /// The line as typed so far.
    pub input: String,
    /// The lines of the output area, oldest first.
    pub output: Vec<String>,
}

/// A session as a mathematical value.
pub struct SessionModel {
    pub input: Seq<char>,
    pub output: Seq<Seq<char>>,
}

impl View for Session {
    type V = SessionModel;

    open spec fn view(&self) -> SessionModel {
        SessionModel { input: self.input@, output: self.output.deep_view() }
    }
}

/// Whether a committed line asks to leave the session: it is the word `exit`,
/// white space around it aside.
pub open spec fn is_exit(line: Seq<char>) -> bool {
    trimmed(line) == "exit"@
}

/// How the output area shows the line that was committed.
pub open spec fn echoed(line: Seq<char>) -> Seq<char> {
    "> "@ + line
}

/// The line that records a command in the output area.
pub open spec fn executed(line: Seq<char>) -> Seq<char> {
    "Executed: "@ + line
}

impl SessionModel {
    /// The session after a key.
    pub open spec fn after(self, key: Key) -> SessionModel {
        match key {
            Key::Char(c) => SessionModel { input: self.input.push(c), output: self.output },
            Key::Backspace => if self.input.len() > 0 {
                SessionModel { input: self.input.drop_last(), output: self.output }
            } else {
                self
            },
            Key::Enter => if is_exit(self.input) {
                self
            } else {
                SessionModel {
                    input: Seq::empty(),
                    output: self.output.push(echoed(self.input)).push(
                        executed(trimmed(self.input)),
                    ),
                }
            },
            Key::Other => self,
        }
    }

    /// Whether `turn` is what the caller is told after a key.
    pub open spec fn answers(self, key: Key, turn: TurnModel) -> bool {
        match key {
            Key::Enter => if is_exit(self.input) {
                turn is Exit
            } else {
                turn matches TurnModel::Run(step) && dispatched(trimmed(self.input), step)
            },
            _ => turn is Continue,
        }
    }
}

/// Dispatches a committed line and gives the line that records it in the
/// output area. The command's own result is for the caller to complete and to
/// print; the record is the same whatever the command does.
pub fn process_command(input: &str) -> (processed: (Step, String))
    ensures
        dispatched(input@, processed.0@),
        processed.1@ == executed(input@),
{
    let step = execute_command(input);
    let record = concat("Executed: ", input);
    (step, record)
}

impl Session {
    /// A session with an empty line and an empty output area.
    pub fn new() -> (session: Session)
        ensures
            session@ == (SessionModel { input: Seq::empty(), output: Seq::empty() }),
    {
        let session = Session { input: String::new(), output: Vec::new() };
        assert(session.output.deep_view() =~= Seq::empty());
        session
    }

    /// Takes one key.
    ///
    /// A character goes to the end of the line and backspace removes the last
    /// one. Enter commits the line: the word `exit` leaves the session and
    /// changes nothing; any other line is trimmed and dispatched, the output
    /// area gets the line as typed and the record of the command, and the line
    /// is cleared. Every other key is ignored.
    pub fn on_key(&mut self, key: Key) -> (turn: Turn)
        ensures
            final(self)@ == old(self)@.after(key),
            old(self)@.answers(key, turn@),
    {
        match key {
            Key::Char(c) => {
                self.input.push(c);
                Turn::Continue
            },
            Key::Backspace => {
                let _ = self.input.pop();
                Turn::Continue
            },
            Key::Enter => {
                let line = CommandLine::new(self.input.as_str());
                if line.is_exit() {
                    return Turn::Exit;
                }
                let (step, record) = process_command(line.as_str());
                let shown = concat("> ", self.input.as_str());
                let ghost before = self.output.deep_view();
                self.output.push(shown);
                self.output.push(record);
                self.input = String::new();
                assert(self.output.deep_view() =~= before.push(echoed(old(self).input@)).push(
                    executed(trimmed(old(self).input@)),
                ));
                Turn::Run(step)
            },
            Key::Other => Turn::Continue,
        }
    }
}

} // verus!
