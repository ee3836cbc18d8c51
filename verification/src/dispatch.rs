//! The dispatcher: from one line to the first step of its command.
//!
//! Dispatching never fails. A line that selects no command, an argument that
//! is malformed and a failure of the system all end in a result with a text.

use vstd::prelude::*;
use vstd::string::*;
use crate::clock::local_now;
use crate::command::{
    argument_of, classify, lemma_keywords, lemma_verb_of_is_the_selected, verb_of, CommandVerb,
};
use crate::handlers::{
    cat_outcome, cd_outcome, clear, clear_outcome, date, date_outcome, echo, echo_outcome,
    first_user_variable, hello, hello_outcome, help, help_outcome, ls_outcome, pwd_outcome,
    rm_outcome, time, time_outcome, touch_outcome, unknown, unknown_outcome, whoami_step,
    write_is_well_formed, write_outcome, write_step,
};
use crate::reply::Outcome;
use crate::step::{Step, StepModel};

verus! {

/// Whether a verb shows the local clock.
pub open spec fn reads_clock(verb: CommandVerb) -> bool {
    verb == CommandVerb::Date || verb == CommandVerb::Time
}

/// The first step of a verb with its argument. `clock` is the local date for
/// `Date` and the local time for `Time`; no other verb looks at it.
pub open spec fn step_of(verb: CommandVerb, argument: Seq<char>, clock: Seq<char>) -> StepModel {
    match verb {
        CommandVerb::Identity => StepModel::Done(hello_outcome()),
        CommandVerb::Date => StepModel::Done(date_outcome(clock)),
        CommandVerb::Time => StepModel::Done(time_outcome(clock)),
        CommandVerb::ClearScreen => StepModel::Done(clear_outcome()),
        CommandVerb::PrintWorkingDir => StepModel::CurrentDir,
        CommandVerb::ListDir => StepModel::ListDir,
        CommandVerb::Whoami => StepModel::Variable(first_user_variable()),
        CommandVerb::Help => StepModel::Done(help_outcome()),
        CommandVerb::Echo => StepModel::Done(echo_outcome(argument)),
        CommandVerb::ReadFile => StepModel::ReadFile(argument),
        CommandVerb::CreateEmptyFile => StepModel::CreateFile(argument),
        CommandVerb::DeleteFile => StepModel::RemoveFile(argument),
        CommandVerb::ChangeDir => StepModel::ChangeDir(argument),
        CommandVerb::AppendToFile => write_step(argument),
        CommandVerb::Unknown => StepModel::Done(unknown_outcome(argument)),
    }
}

/// The first step of a line, given what the local clock shows.
pub open spec fn planned(line: Seq<char>, clock: Seq<char>) -> StepModel {
    step_of(verb_of(line), argument_of(line), clock)
}

/// Whether `step` is a first step of `line`: the one that its command takes
/// for some reading of the local clock, and, where the command does not look at
/// the clock, the only one there is.
pub open spec fn dispatched(line: Seq<char>, step: StepModel) -> bool {
    &&& exists|clock: Seq<char>| step == #[trigger] planned(line, clock)
    &&& !reads_clock(verb_of(line)) ==> step == planned(line, Seq::empty())
}

/// Calls the handler of a verb, or says what the handler will need.
pub fn step_for(verb: CommandVerb, argument: &str, clock: &str) -> (step: Step)
    ensures
        step@ == step_of(verb, argument@, clock@),
{
    match verb {
        CommandVerb::Identity => Step::Done(hello()),
        CommandVerb::Date => Step::Done(date(clock)),
        CommandVerb::Time => Step::Done(time(clock)),
        CommandVerb::ClearScreen => Step::Done(clear()),
        CommandVerb::PrintWorkingDir => Step::CurrentDir,
        CommandVerb::ListDir => Step::ListDir,
        CommandVerb::Whoami => Step::Variable(String::from_str("USER")),
        CommandVerb::Help => Step::Done(help()),
        CommandVerb::Echo => Step::Done(echo(argument)),
        CommandVerb::ReadFile => Step::ReadFile(String::from_str(argument)),
        CommandVerb::CreateEmptyFile => Step::CreateFile(String::from_str(argument)),
        CommandVerb::DeleteFile => Step::RemoveFile(String::from_str(argument)),
        CommandVerb::ChangeDir => Step::ChangeDir(String::from_str(argument)),
        CommandVerb::AppendToFile => crate::handlers::write(argument),
        CommandVerb::Unknown => Step::Done(unknown(argument)),
    }
}

/// Dispatches a line, given what the local clock shows.
pub fn plan(input: &str, clock: &str) -> (step: Step)
    ensures
        step@ == planned(input@, clock@),
{
    let (verb, argument) = classify(input);
    step_for(verb, argument, clock)
}

/// Dispatches a line: finds its command and takes the command's first step.
///
/// The line is taken as it stands, neither trimmed nor split further. For
/// `date` and `time` the local clock is read, so the result holds whatever
/// the clock showed; every other line has exactly one first step.
pub fn execute_command(input: &str) -> (step: Step)
    ensures
        dispatched(input@, step@),
{
    let (verb, argument) = classify(input);
    match verb {
        CommandVerb::Date => {
            let today = local_now("%Y-%m-%d");
            let step = step_for(verb, argument, today.as_str());
            assert(step@ == planned(input@, today@));
            step
        },
        CommandVerb::Time => {
            let now = local_now("%H:%M:%S");
            let step = step_for(verb, argument, now.as_str());
            assert(step@ == planned(input@, now@));
            step
        },
        _ => {
            let step = step_for(verb, argument, "");
            assert(step@ == planned(input@, ""@));
            assert(step@ == planned(input@, Seq::empty()));
            step
        },
    }
}

/// The entry of the remote bridge: dispatches the text of one frame,
/// unmodified.
pub fn run_command(input: &str) -> (step: Step)
    ensures
        dispatched(input@, step@),
{
    execute_command(input)
}

/// A line that selects no command is answered with the words
/// "Unknown command: " and the line itself, and nothing is asked of the
/// system.
pub proof fn lemma_unknown_line(line: Seq<char>, clock: Seq<char>)
    requires
        verb_of(line) == CommandVerb::Unknown,
    ensures
        planned(line, clock) == StepModel::Done(Outcome::Output("Unknown command: "@ + line)),
{
}

/// `echo` followed by a space and any text, the empty text too, is answered
/// with exactly that text.
pub proof fn lemma_echo_returns_its_text(text: Seq<char>, clock: Seq<char>)
    ensures
        verb_of("echo "@ + text) == CommandVerb::Echo,
        planned("echo "@ + text, clock) == StepModel::Done(Outcome::Output(text)),
{
    let line = "echo "@ + text;
    lemma_keywords();
    assert("echo "@.is_prefix_of(line)) by {
        assert(line.subrange(0, 5) =~= "echo "@);
    }
    lemma_verb_of_is_the_selected(line, CommandVerb::Echo);
    assert(line.skip(5) =~= text);
}

/// A recognized command with a well-formed argument does not fail by itself:
/// where its first step is its result, that result is no failure.
pub proof fn lemma_recognized_command_does_not_fail(line: Seq<char>, clock: Seq<char>)
    requires
        verb_of(line) != CommandVerb::Unknown,
        verb_of(line) == CommandVerb::AppendToFile ==> write_is_well_formed(argument_of(line)),
    ensures
        planned(line, clock) matches StepModel::Done(outcome) ==> !outcome.is_failure(),
{
}

/// Every request to the system comes from one verb only. In particular the
/// working directory is changed by `cd` and by nothing else, and a file is
/// truncated by `touch`, removed by `rm` and added to by `write` alone.
pub proof fn lemma_requests_belong_to_their_verbs(line: Seq<char>, clock: Seq<char>)
    ensures
        planned(line, clock) is ChangeDir <==> verb_of(line) == CommandVerb::ChangeDir,
        planned(line, clock) is CreateFile <==> verb_of(line) == CommandVerb::CreateEmptyFile,
        planned(line, clock) is RemoveFile <==> verb_of(line) == CommandVerb::DeleteFile,
        planned(line, clock) is AppendLine ==> verb_of(line) == CommandVerb::AppendToFile,
        planned(line, clock) is ReadFile <==> verb_of(line) == CommandVerb::ReadFile,
        planned(line, clock) is CurrentDir <==> verb_of(line) == CommandVerb::PrintWorkingDir,
        planned(line, clock) is ListDir <==> verb_of(line) == CommandVerb::ListDir,
        planned(line, clock) is Variable <==> verb_of(line) == CommandVerb::Whoami,
{
}

/// Where the system does what it was asked, no handler reports a failure.
pub proof fn lemma_handlers_succeed_when_the_system_does(
    name: Seq<char>,
    text: Seq<char>,
    entries: Seq<Option<Seq<char>>>,
)
    ensures
        !pwd_outcome(Ok(text)).is_failure(),
        !ls_outcome(Ok(entries)).is_failure(),
        !cat_outcome(Ok(text)).is_failure(),
        !touch_outcome(name, Ok(())).is_failure(),
        !rm_outcome(name, Ok(())).is_failure(),
        !cd_outcome(name, Ok(())).is_failure(),
        !write_outcome(name, Ok(())).is_failure(),
        whoami_step(name, Some(text)) matches StepModel::Done(outcome) && !outcome.is_failure(),
{
}

} // verus!
