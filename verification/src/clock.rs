//! The local date and time, as text.

use vstd::prelude::*;

verus! {

/// The format of the date that a new record is stamped with.
pub open spec fn date_format() -> Seq<char> {
    "%d-%m-%y"@
}

/// The format of the day that a prompt names.
pub open spec fn day_format() -> Seq<char> {
    "%A, %B %d"@
}

/// The format of the time of day that a prompt names.
pub open spec fn time_format() -> Seq<char> {
    "%H:%M"@
}

/// The formats that this library hands to the clock. Each is made of
/// specifiers that chrono's `strftime` table lists, and of plain characters.
pub open spec fn known_format(fmt: Seq<char>) -> bool {
    fmt == date_format() || fmt == day_format() || fmt == time_format()
}

/// Whether `c` is a decimal digit.
pub open spec fn is_digit(c: char) -> bool {
    '0' <= c && c <= '9'
}

/// Whether `s` has the shape of a date: day, month and year of two digits
/// each, with hyphens between.
pub open spec fn is_short_date(s: Seq<char>) -> bool {
    &&& s.len() == 8
    &&& is_digit(s[0]) && is_digit(s[1])
    &&& s[2] == '-'
    &&& is_digit(s[3]) && is_digit(s[4])
    &&& s[5] == '-'
    &&& is_digit(s[6]) && is_digit(s[7])
}

/// Whether `s` has the shape of a time of day: hour and minute of two digits
/// each, with a colon between.
pub open spec fn is_time_of_day(s: Seq<char>) -> bool {
    &&& s.len() == 5
    &&& is_digit(s[0]) && is_digit(s[1])
    &&& s[2] == ':'
    &&& is_digit(s[3]) && is_digit(s[4])
}

/// Whether `s` can be a day as a prompt names it: it ends in a space and the
/// two digits of the day of the month.
pub open spec fn is_day_text(s: Seq<char>) -> bool {
    &&& s.len() >= 3
    &&& s[s.len() - 3] == ' '
    &&& is_digit(s[s.len() - 2]) && is_digit(s[s.len() - 1])
}

/// `chrono::Local::now()`, written out by `DateTime::format` with `fmt`.
/// Which date and time the text names depends on the clock and on the time
/// zone of the machine, and nothing is claimed of that. Its shape is claimed
/// where chrono's `strftime` table gives it: `%d`, `%m`, `%y`, `%H` and `%M`
/// are each written as two digits, zero-padded. `fmt` must be a format that
/// chrono can write: `to_string` panics on any other. chrono itself panics
/// where the system clock stands before 1970.
#[verifier::external_body]
pub(crate) fn local_now(fmt: &str) -> (text: String)
    requires
        known_format(fmt@),
    ensures
        fmt@ == date_format() ==> is_short_date(text@),
        fmt@ == time_format() ==> is_time_of_day(text@),
        fmt@ == day_format() ==> is_day_text(text@),
{
    chrono::Local::now().format(fmt).to_string()
}

/// The local date, as a new record carries it.
pub fn today() -> (date: String)
    ensures
        is_short_date(date@),
{
    local_now("%d-%m-%y")
}

/// The local day, as a prompt names it: the weekday, the month and the day
/// of the month.
pub fn day_now() -> (day: String)
    ensures
        is_day_text(day@),
{
    local_now("%A, %B %d")
}

/// The local time of day, as a prompt names it.
pub fn time_now() -> (time: String)
    ensures
        is_time_of_day(time@),
{
    local_now("%H:%M")
}

} // verus!
