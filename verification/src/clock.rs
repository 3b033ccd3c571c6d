//! The time of an alert, as it is shown to people.

use vstd::prelude::*;
use crate::message::{decimal, digit};

verus! {

/// The pattern of a time label: weekday, date, hour and minute.
pub open spec fn time_pattern() -> Seq<char> {
    "%a %Y-%m-%d @ %H:%M"@
}

/// The short name of a day of the week, counted from Sunday.
pub open spec fn weekday_name(weekday: nat) -> Seq<char>
    recommends
        weekday < 7,
{
    if weekday == 0 {
        "Sun"@
    } else if weekday == 1 {
        "Mon"@
    } else if weekday == 2 {
        "Tue"@
    } else if weekday == 3 {
        "Wed"@
    } else if weekday == 4 {
        "Thu"@
    } else if weekday == 5 {
        "Fri"@
    } else {
        "Sat"@
    }
}

/// A number below one hundred in two digits.
pub open spec fn two_digits(n: nat) -> Seq<char>
    recommends
        n < 100,
{
    seq![digit(n / 10), digit(n % 10)]
}

/// A year of the common era: in four digits up to the year 9999, and with a
/// plus sign before its digits from the year 10000 on.
pub open spec fn year_text(year: nat) -> Seq<char> {
    if year <= 9999 {
        two_digits(year / 100) + two_digits(year % 100)
    } else {
        seq!['+'] + decimal(year)
    }
}

/// The label of a point in time: the weekday, the date as year, month and
/// day, and the time of day as hour and minute.
pub open spec fn label_text(
    weekday: nat,
    year: nat,
    month: nat,
    day: nat,
    hour: nat,
    minute: nat,
) -> Seq<char> {
    weekday_name(weekday) + " "@ + year_text(year) + "-"@ + two_digits(month) + "-"@ + two_digits(
        day,
    ) + " @ "@ + two_digits(hour) + ":"@ + two_digits(minute)
}

/// Whether a text is the label of some point in time.
pub open spec fn is_time_label(text: Seq<char>) -> bool {
    exists|weekday: nat, year: nat, month: nat, day: nat, hour: nat, minute: nat|
        {
            &&& weekday < 7
            &&& 1 <= month <= 12
            &&& 1 <= day <= 31
            &&& hour < 24
            &&& minute < 60
            &&& text == #[trigger] label_text(weekday, year, month, day, hour, minute)
        }
}

/// Calls `chrono::Local::now` and formats the result with
/// `chrono::DateTime::format`.
///
/// Which point in time the text shows is not claimed: that depends on the
/// clock and on the machine's time zone. What is claimed is the text's form,
/// which chrono gives to every point in time under this pattern: the English
/// three-letter weekday, the year as `year_text` has it, and month, day, hour
/// and minute in two digits each, with the pattern's own characters between
/// them. The pattern is held to the one of `time_pattern`, which chrono
/// accepts; on a pattern that it does not accept the formatting would panic.
/// chrono also panics when the system clock stands before the year 1970,
/// which no argument can rule out.
#[verifier::external_body]
fn format_local_now(pattern: &str) -> (label: String)
    requires
        pattern@ == time_pattern(),
    ensures
        is_time_label(label@),
{
    chrono::Local::now().format(pattern).to_string()
}

/// The current local time as a label for alerts.
pub fn time_label() -> (label: String)
    ensures
        is_time_label(label@),
{
    format_local_now("%a %Y-%m-%d @ %H:%M")
}

} // verus!
