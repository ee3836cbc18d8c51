//! The local wall clock, read through `chrono`.

use vstd::prelude::*;

verus! {

/// How `date` writes the calendar date: year, month and day of the month.
pub open spec fn date_pattern() -> Seq<char> {
    "%Y-%m-%d"@
}

/// How `time` writes the time of day: hour of 24, minute and second.
pub open spec fn time_pattern() -> Seq<char> {
    "%H:%M:%S"@
}

/// The local date and time of this moment, written by `pattern`.
///
/// Calls `chrono::Local::now` and `chrono::DateTime::format`, and turns what
/// `format` returns into a `String`. Nothing is claimed of the text: it
/// depends on the clock and on the time zone of the machine. Turning the
/// formatted value into a text panics on a pattern that `format` does not
/// understand, so only the two patterns of this library are admitted; each
/// holds three numeric fields and two separators, which `format` accepts.
/// `now` itself panics where the clock of the machine stands before 1970 or
/// no local time can be chosen for it; no argument decides that, and no
/// contract here excludes it.
#[verifier::external_body]
pub(crate) fn local_now(pattern: &str) -> (stamp: String)
    requires
        pattern@ == date_pattern() || pattern@ == time_pattern(),
{
    chrono::Local::now().format(pattern).to_string()
}

} // verus!
