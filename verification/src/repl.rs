//! The line-editing interactive front end, as a state machine.
//!
//! A caller shows the prompt, waits for one line, and hands what it got to
//! `on_read`, which keeps the history and says whether to leave or which step
//! to carry out. The caller loads the history when the session starts and
//! stores it when the session ends, however it ends.

use vstd::prelude::*;
use vstd::string::*;
use crate::dispatch::{dispatched, execute_command};
use crate::line::CommandLine;
use crate::session::{Turn, TurnModel};
use crate::text::{find_last_char, skip_chars, trimmed};

verus! {

/// The part of a path that a prompt shows: what stands behind the last
/// slash, or the path itself where it holds no slash or ends in one.
pub open spec fn last_component(path: Seq<char>) -> Seq<char> {
    match path.index_of_last('/') {
        Some(at) => if at + 1 < path.len() {
            path.skip(at + 1)
        } else {
            path
        },
        None => path,
    }
}

/// The prompt: the user, the host and the last part of the working
/// directory.
pub open spec fn prompt_text(user: Seq<char>, host: Seq<char>, directory: Seq<char>) -> Seq<char> {
    user + "@"@ + host + ":"@ + last_component(directory) + "$ "@
}

/// Renders the prompt.
pub fn prompt(user: &str, host: &str, directory: &str) -> (text: String)
    ensures
        text@ == prompt_text(user@, host@, directory@),
{
    proof {
        directory@.index_of_last_ensures('/');
    }
    let n = directory.unicode_len();
    let shown = match find_last_char(directory, '/') {
        Some(at) => if at + 1 < n {
            skip_chars(directory, at + 1)
        } else {
            directory
        },
        None => directory,
    };
    let mut text = String::from_str(user);
    text.append("@");
    text.append(host);
    text.append(":");
    text.append(shown);
    text.append("$ ");
    text
}

/// The history as it is stored: every line followed by a line feed.
pub open spec fn stored_text(entries: Seq<Seq<char>>) -> Seq<char>
    decreases entries.len(),
{
    if entries.len() == 0 {
        Seq::empty()
    } else {
        stored_text(entries.drop_last()) + entries.last() + seq!['\n']
    }
}

/// A stored text read up to its end: the lines that a line feed has closed,
/// and what stands behind the last line feed. Empty lines are not kept.
pub open spec fn lines_and_rest(text: Seq<char>) -> (Seq<Seq<char>>, Seq<char>)
    decreases text.len(),
{
    if text.len() == 0 {
        (Seq::empty(), Seq::empty())
    } else {
        let (lines, rest) = lines_and_rest(text.drop_last());
        if text.last() == '\n' {
            (
                if rest.len() > 0 {
                    lines.push(rest)
                } else {
                    lines
                },
                Seq::empty(),
            )
        } else {
            (lines, rest.push(text.last()))
        }
    }
}

/// The lines of a stored history: the lines of the text that are not empty,
/// whether or not a line feed follows the last one.
pub open spec fn stored_lines(text: Seq<char>) -> Seq<Seq<char>> {
    let (lines, rest) = lines_and_rest(text);
    if rest.len() > 0 {
        lines.push(rest)
    } else {
        lines
    }
}

/// Reading on through text that holds no line feed adds to what stands behind
/// the last line feed and closes no line.
proof fn lemma_read_on(text: Seq<char>, more: Seq<char>)
    requires
        !more.contains('\n'),
    ensures
        lines_and_rest(text + more) == (lines_and_rest(text).0, lines_and_rest(text).1 + more),
    decreases more.len(),
{
    if more.len() == 0 {
        assert(text + more =~= text);
        assert(lines_and_rest(text).1 + more =~= lines_and_rest(text).1);
    } else {
        let shorter = more.drop_last();
        assert(more.last() != '\n') by {
            assert(more[more.len() - 1] == more.last());
        }
        assert(!shorter.contains('\n')) by {
            if shorter.contains('\n') {
                let k = choose|k: int| 0 <= k < shorter.len() && shorter[k] == '\n';
                assert(more[k] == '\n');
            }
        }
        lemma_read_on(text, shorter);
        assert((text + more).drop_last() =~= text + shorter);
        assert((text + more).last() == more.last());
        assert((lines_and_rest(text).1 + shorter).push(more.last()) =~= lines_and_rest(text).1
            + more);
    }
}

/// What was stored is what is loaded: a history whose lines are not empty and
/// hold no line feed comes back from its stored text as it was.
pub proof fn lemma_history_round_trip(entries: Seq<Seq<char>>)
    requires
        forall|i: int| 0 <= i < entries.len() ==> (#[trigger] entries[i]).len() > 0,
        forall|i: int| 0 <= i < entries.len() ==> !(#[trigger] entries[i]).contains('\n'),
    ensures
        stored_lines(stored_text(entries)) == entries,
        lines_and_rest(stored_text(entries)) == (entries, Seq::<char>::empty()),
    decreases entries.len(),
{
    if entries.len() > 0 {
        let before = entries.drop_last();
        let line = entries.last();
        assert forall|i: int| 0 <= i < before.len() implies (#[trigger] before[i]).len() > 0 by {
            assert(before[i] == entries[i]);
        }
        assert forall|i: int| 0 <= i < before.len() implies !(#[trigger] before[i]).contains(
            '\n',
        ) by {
            assert(before[i] == entries[i]);
        }
        lemma_history_round_trip(before);
        let head = stored_text(before);
        lemma_read_on(head, line);
        let whole = stored_text(entries);
        assert(whole.drop_last() =~= head + line);
        assert(whole.last() == '\n');
        assert(Seq::<char>::empty() + line =~= line);
        assert(before.push(line) =~= entries);
    }
}

/// The lines that were entered in interactive sessions, oldest first. Lines
/// are added at the end; none is changed or removed.
#[derive(Debug, PartialEq, Eq)]
pub struct SessionHistory {
    entries: Vec<String>,
}

impl View for SessionHistory {
    type V = Seq<Seq<char>>;

    closed spec fn view(&self) -> Seq<Seq<char>> {
        self.entries.deep_view()
    }
}

/// The history after a line was entered: an empty line is not recorded.
pub open spec fn recorded(entries: Seq<Seq<char>>, line: Seq<char>) -> Seq<Seq<char>> {
    if line.len() == 0 {
        entries
    } else {
        entries.push(line)
    }
}

impl SessionHistory {
    /// An empty history.
    pub fn new() -> (history: SessionHistory)
        ensures
            history@ == Seq::<Seq<char>>::empty(),
    {
        let history = SessionHistory { entries: Vec::new() };
        assert(history.entries.deep_view() =~= Seq::empty());
        history
    }

    /// The history that a stored text holds.
    pub fn load(stored: &str) -> (history: SessionHistory)
        ensures
            history@ == stored_lines(stored@),
    {
        let mut entries: Vec<String> = Vec::new();
        let mut rest = String::new();
        let mut i: usize = 0;
        let n = stored.unicode_len();
        assert(entries.deep_view() =~= Seq::empty());
        assert(stored@.take(0) =~= Seq::empty());
        for c in it: stored.chars()
            invariant
                i == it.index(),
                it.seq() == stored@,
                n == stored@.len(),
                (entries.deep_view(), rest@) == lines_and_rest(stored@.take(i as int)),
        {
            let ghost lines = entries.deep_view();
            assert(stored@.take(i + 1).drop_last() =~= stored@.take(i as int));
            assert(stored@.take(i + 1).last() == c);
            if c == '\n' {
                if !rest.as_str().is_empty() {
                    entries.push(rest);
                    assert(entries.deep_view() =~= lines.push(rest@));
                }
                rest = String::new();
            } else {
                rest.push(c);
            }
            i += 1;
        }
        assert(stored@.take(n as int) =~= stored@);
        if !rest.as_str().is_empty() {
            let ghost lines = entries.deep_view();
            entries.push(rest);
            assert(entries.deep_view() =~= lines.push(rest@));
        }
        SessionHistory { entries }
    }

    /// The text to store the history as.
    pub fn stored(&self) -> (text: String)
        ensures
            text@ == stored_text(self@),
    {
        let mut text = String::new();
        let n = self.entries.len();
        let mut i: usize = 0;
        assert(self.entries.deep_view().take(0) =~= Seq::empty());
        while i < n
            invariant
                i <= n,
                n == self.entries.len(),
                text@ == stored_text(self.entries.deep_view().take(i as int)),
            decreases n - i,
        {
            proof {
                reveal_strlit("\n");
                assert("\n"@ =~= seq!['\n']);
                let next = self.entries.deep_view().take(i + 1);
                assert(next.drop_last() =~= self.entries.deep_view().take(i as int));
                assert(next.last() == self.entries[i as int]@);
            }
            text.append(self.entries[i].as_str());
            text.append("\n");
            i += 1;
        }
        assert(self.entries.deep_view().take(n as int) =~= self.entries.deep_view());
        text
    }

    /// Adds a line at the end, unless it is empty.
    pub fn record(&mut self, line: &CommandLine)
        ensures
            final(self)@ == recorded(old(self)@, line@),
    {
        if !line.is_empty() {
            let ghost before = self.entries.deep_view();
            self.entries.push(String::from_str(line.as_str()));
            assert(self.entries.deep_view() =~= before.push(line@));
        }
    }

    /// The lines, oldest first.
    pub fn entries(&self) -> (entries: &Vec<String>)
        ensures
            entries.deep_view() == self@,
    {
        &self.entries
    }
}

/// What a wait for one line ended in.
#[derive(Debug, PartialEq, Eq)]
pub enum Read {
    /// A line was entered.
    Line(String),
    /// The user interrupted the wait.
    Interrupted,
    /// The input is at its end.
    EndOfInput,
}

/// The history after a wait for one line: the word `exit` is not recorded,
/// every other line that is not empty is.
pub open spec fn history_after(entries: Seq<Seq<char>>, read: Read) -> Seq<Seq<char>> {
    match read {
        Read::Line(raw) => if trimmed(raw@) == "exit"@ {
            entries
        } else {
            recorded(entries, trimmed(raw@))
        },
        _ => entries,
    }
}

/// The history only grows: whatever a wait for one line ends in, the lines
/// that were there stay, in their places.
pub proof fn lemma_history_only_grows(entries: Seq<Seq<char>>, read: Read)
    ensures
        entries.is_prefix_of(history_after(entries, read)),
{
    let after = history_after(entries, read);
    assert(entries =~= after.subrange(0, entries.len() as int));
}

/// Whether `turn` is what the caller is told after a wait for one line: to
/// leave on the word `exit`, on an interrupt and at the end of the input, and
/// to carry out the first step of any other line, trimmed.
pub open spec fn turn_after(read: Read, turn: TurnModel) -> bool {
    match read {
        Read::Line(raw) => if trimmed(raw@) == "exit"@ {
            turn is Exit
        } else {
            turn matches TurnModel::Run(step) && dispatched(trimmed(raw@), step)
        },
        _ => turn is Exit,
    }
}

/// Takes what a wait for one line ended in.
pub fn on_read(history: &mut SessionHistory, read: Read) -> (turn: Turn)
    ensures
        final(history)@ == history_after(old(history)@, read),
        turn_after(read, turn@),
{
    match read {
        Read::Line(raw) => {
            let line = CommandLine::new(raw.as_str());
            if line.is_exit() {
                return Turn::Exit;
            }
            history.record(&line);
            Turn::Run(execute_command(line.as_str()))
        },
        Read::Interrupted => Turn::Exit,
        Read::EndOfInput => Turn::Exit,
    }
}

} // verus!
