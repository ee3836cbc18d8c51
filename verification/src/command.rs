//! The table of built-in commands, and how a line selects one of them.
//!
//! A verb without an argument is selected by a line that is exactly its
//! keyword. A verb with an argument is selected by a line that begins with
//! its keyword, which ends in a space; what follows is the argument, passed on
//! as it stands. No keyword is the beginning of another, so a line selects at
//! most one verb.

use vstd::prelude::*;
use crate::text::{same_text, skip_chars, starts_with};

verus! {

/// The operation that a line asks for.
#[derive(Clone, Copy, Debug, PartialEq, Eq, Structural)]
pub enum CommandVerb {
    /// `hello`: greet the user.
    Identity,
    /// `date`: the current local date.
    Date,
    /// `time`: the current local time.
    Time,
    /// `clear`: clear the screen.
    ClearScreen,
    /// `pwd`: the current working directory.
    PrintWorkingDir,
    /// `ls`: the entries of the current working directory.
    ListDir,
    /// `whoami`: the name of the current user.
    Whoami,
    /// `help`: the list of commands.
    Help,
    /// `echo <text>`: the text itself.
    Echo,
    /// `cat <path>`: the contents of a file.
    ReadFile,
    /// `touch <path>`: create an empty file.
    CreateEmptyFile,
    /// `rm <path>`: delete a file.
    DeleteFile,
    /// `cd <path>`: change the working directory.
    ChangeDir,
    /// `write <path> <text>`: append a line to a file.
    AppendToFile,
    /// Any line that selects none of the others.
    Unknown,
}

impl CommandVerb {
    /// The literal that selects this verb. `Unknown` has none.
    pub open spec fn keyword(self) -> Seq<char> {
        match self {
            CommandVerb::Identity => "hello"@,
            CommandVerb::Date => "date"@,
            CommandVerb::Time => "time"@,
            CommandVerb::ClearScreen => "clear"@,
            CommandVerb::PrintWorkingDir => "pwd"@,
            CommandVerb::ListDir => "ls"@,
            CommandVerb::Whoami => "whoami"@,
            CommandVerb::Help => "help"@,
            CommandVerb::Echo => "echo "@,
            CommandVerb::ReadFile => "cat "@,
            CommandVerb::CreateEmptyFile => "touch "@,
            CommandVerb::DeleteFile => "rm "@,
            CommandVerb::ChangeDir => "cd "@,
            CommandVerb::AppendToFile => "write "@,
            CommandVerb::Unknown => Seq::empty(),
        }
    }

    /// Whether the verb is followed by an argument.
    pub open spec fn takes_argument(self) -> bool {
        match self {
            CommandVerb::Echo
            | CommandVerb::ReadFile
            | CommandVerb::CreateEmptyFile
            | CommandVerb::DeleteFile
            | CommandVerb::ChangeDir
            | CommandVerb::AppendToFile => true,
            _ => false,
        }
    }

    /// Whether `line` selects this verb. No line selects `Unknown`: that is
    /// what is left when no verb is selected.
    pub open spec fn selected_by(self, line: Seq<char>) -> bool {
        if self == CommandVerb::Unknown {
            false
        } else if self.takes_argument() {
            self.keyword().is_prefix_of(line)
        } else {
            line == self.keyword()
        }
    }
}

/// The verb of a line: exact keywords are tried first, then the keywords that
/// take an argument, each in its listed order.
pub open spec fn verb_of(line: Seq<char>) -> CommandVerb {
    if CommandVerb::Identity.selected_by(line) {
        CommandVerb::Identity
    } else if CommandVerb::Date.selected_by(line) {
        CommandVerb::Date
    } else if CommandVerb::Time.selected_by(line) {
        CommandVerb::Time
    } else if CommandVerb::ClearScreen.selected_by(line) {
        CommandVerb::ClearScreen
    } else if CommandVerb::PrintWorkingDir.selected_by(line) {
        CommandVerb::PrintWorkingDir
    } else if CommandVerb::ListDir.selected_by(line) {
        CommandVerb::ListDir
    } else if CommandVerb::Whoami.selected_by(line) {
        CommandVerb::Whoami
    } else if CommandVerb::Help.selected_by(line) {
        CommandVerb::Help
    } else if CommandVerb::Echo.selected_by(line) {
        CommandVerb::Echo
    } else if CommandVerb::ReadFile.selected_by(line) {
        CommandVerb::ReadFile
    } else if CommandVerb::CreateEmptyFile.selected_by(line) {
        CommandVerb::CreateEmptyFile
    } else if CommandVerb::DeleteFile.selected_by(line) {
        CommandVerb::DeleteFile
    } else if CommandVerb::ChangeDir.selected_by(line) {
        CommandVerb::ChangeDir
    } else if CommandVerb::AppendToFile.selected_by(line) {
        CommandVerb::AppendToFile
    } else {
        CommandVerb::Unknown
    }
}

/// What the handler of the line's verb is given: the text behind the keyword
/// for a verb with an argument, the whole line for `Unknown`, nothing for the
/// others.
pub open spec fn argument_of(line: Seq<char>) -> Seq<char> {
    let verb = verb_of(line);
    if verb == CommandVerb::Unknown {
        line
    } else if verb.takes_argument() {
        line.skip(verb.keyword().len() as int)
    } else {
        Seq::empty()
    }
}

/// What the keywords hold, character by character.
pub proof fn lemma_keywords()
    ensures
        "hello"@ == seq!['h', 'e', 'l', 'l', 'o'],
        "date"@ == seq!['d', 'a', 't', 'e'],
        "time"@ == seq!['t', 'i', 'm', 'e'],
        "clear"@ == seq!['c', 'l', 'e', 'a', 'r'],
        "pwd"@ == seq!['p', 'w', 'd'],
        "ls"@ == seq!['l', 's'],
        "whoami"@ == seq!['w', 'h', 'o', 'a', 'm', 'i'],
        "help"@ == seq!['h', 'e', 'l', 'p'],
        "echo "@ == seq!['e', 'c', 'h', 'o', ' '],
        "cat "@ == seq!['c', 'a', 't', ' '],
        "touch "@ == seq!['t', 'o', 'u', 'c', 'h', ' '],
        "rm "@ == seq!['r', 'm', ' '],
        "cd "@ == seq!['c', 'd', ' '],
        "write "@ == seq!['w', 'r', 'i', 't', 'e', ' '],
{
    reveal_strlit("hello");
    reveal_strlit("date");
    reveal_strlit("time");
    reveal_strlit("clear");
    reveal_strlit("pwd");
    reveal_strlit("ls");
    reveal_strlit("whoami");
    reveal_strlit("help");
    reveal_strlit("echo ");
    reveal_strlit("cat ");
    reveal_strlit("touch ");
    reveal_strlit("rm ");
    reveal_strlit("cd ");
    reveal_strlit("write ");
    assert("hello"@ =~= seq!['h', 'e', 'l', 'l', 'o']);
    assert("date"@ =~= seq!['d', 'a', 't', 'e']);
    assert("time"@ =~= seq!['t', 'i', 'm', 'e']);
    assert("clear"@ =~= seq!['c', 'l', 'e', 'a', 'r']);
    assert("pwd"@ =~= seq!['p', 'w', 'd']);
    assert("ls"@ =~= seq!['l', 's']);
    assert("whoami"@ =~= seq!['w', 'h', 'o', 'a', 'm', 'i']);
    assert("help"@ =~= seq!['h', 'e', 'l', 'p']);
    assert("echo "@ =~= seq!['e', 'c', 'h', 'o', ' ']);
    assert("cat "@ =~= seq!['c', 'a', 't', ' ']);
    assert("touch "@ =~= seq!['t', 'o', 'u', 'c', 'h', ' ']);
    assert("rm "@ =~= seq!['r', 'm', ' ']);
    assert("cd "@ =~= seq!['c', 'd', ' ']);
    assert("write "@ =~= seq!['w', 'r', 'i', 't', 'e', ' ']);
}

/// No line selects two verbs: every keyword differs from every other within
/// the length of the shorter one.
pub proof fn lemma_verbs_unambiguous(line: Seq<char>, first: CommandVerb, second: CommandVerb)
    requires
        first.selected_by(line),
        second.selected_by(line),
    ensures
        first == second,
{
    lemma_keywords();
    let a = first.keyword();
    let b = second.keyword();
    assert(a.len() >= 2 && b.len() >= 2);
    assert(a.is_prefix_of(line) && b.is_prefix_of(line));
    assert(forall|i: int| 0 <= i < a.len() ==> a[i] == line[i]);
    assert(forall|i: int| 0 <= i < b.len() ==> b[i] == line[i]);
    if first != second {
        // Two keywords agree on their first two characters only where both
        // begin with "he"; those two differ at the fourth.
        assert(line[0] == a[0] && line[0] == b[0]);
        assert(line[1] == a[1] && line[1] == b[1]);
        if a[0] == 'h' && b[0] == 'h' {
            assert(line[3] == a[3] && line[3] == b[3]);
        }
    }
}

/// A line selects the verb that `verb_of` names, and no other.
pub proof fn lemma_verb_of_is_the_selected(line: Seq<char>, verb: CommandVerb)
    ensures
        verb.selected_by(line) ==> verb_of(line) == verb,
        verb_of(line) != CommandVerb::Unknown ==> verb_of(line).selected_by(line),
        verb_of(line) == CommandVerb::Unknown <==> forall|other: CommandVerb|
            !#[trigger] other.selected_by(line),
{
    if verb.selected_by(line) {
        if verb_of(line) != CommandVerb::Unknown {
            lemma_verbs_unambiguous(line, verb, verb_of(line));
        }
    }
    if verb_of(line) == CommandVerb::Unknown {
        assert forall|other: CommandVerb| !#[trigger] other.selected_by(line) by {
            if other.selected_by(line) {
                assert(verb_of(line) != CommandVerb::Unknown);
            }
        }
    } else {
        assert(verb_of(line).selected_by(line));
    }
}

/// Splits a line into its verb and the argument of that verb.
pub fn classify(line: &str) -> (parsed: (CommandVerb, &str))
    ensures
        parsed.0 == verb_of(line@),
        parsed.1@ == argument_of(line@),
{
    proof {
        lemma_keywords();
        reveal_strlit("");
        assert(""@ =~= Seq::<char>::empty());
    }
    if same_text(line, "hello") {
        (CommandVerb::Identity, "")
    } else if same_text(line, "date") {
        (CommandVerb::Date, "")
    } else if same_text(line, "time") {
        (CommandVerb::Time, "")
    } else if same_text(line, "clear") {
        (CommandVerb::ClearScreen, "")
    } else if same_text(line, "pwd") {
        (CommandVerb::PrintWorkingDir, "")
    } else if same_text(line, "ls") {
        (CommandVerb::ListDir, "")
    } else if same_text(line, "whoami") {
        (CommandVerb::Whoami, "")
    } else if same_text(line, "help") {
        (CommandVerb::Help, "")
    } else if starts_with(line, "echo ") {
        (CommandVerb::Echo, skip_chars(line, 5))
    } else if starts_with(line, "cat ") {
        (CommandVerb::ReadFile, skip_chars(line, 4))
    } else if starts_with(line, "touch ") {
        (CommandVerb::CreateEmptyFile, skip_chars(line, 6))
    } else if starts_with(line, "rm ") {
        (CommandVerb::DeleteFile, skip_chars(line, 3))
    } else if starts_with(line, "cd ") {
        (CommandVerb::ChangeDir, skip_chars(line, 3))
    } else if starts_with(line, "write ") {
        (CommandVerb::AppendToFile, skip_chars(line, 6))
    } else {
        (CommandVerb::Unknown, line)
    }
}

} // verus!
