//! How the time of a message is shown: the time of day for a message of
//! today, the same after "yesterday at" for one of the day before, and the
//! date for anything else.

use crate::calendar::{next_day, Date};
use crate::decimal::{
    decimal, digit, push_decimal, push_signed_decimal, push_two_digits, signed_decimal, two_digits,
};
use crate::timestamp::{local_date_time, LocalDateTime, Timestamp, UtcOffset};
use vstd::prelude::*;

verus! {

/// The hour as a twelve-hour clock shows it: twelve at midnight and at noon,
/// and one to eleven after each.
pub open spec fn clock_hour(hour: int) -> int {
    if hour == 0 {
        12
    } else if hour > 12 {
        hour - 12
    } else {
        hour
    }
}

/// The mark that follows the time of day: "am" before noon, "pm" from noon
/// on.
pub open spec fn day_half(hour: int) -> Seq<char> {
    if hour >= 12 {
        seq!['p', 'm']
    } else {
        seq!['a', 'm']
    }
}

/// The time of day on a twelve-hour clock: hour and minute in two digits
/// each, a colon between them, then "am" or "pm".
pub open spec fn clock_text(hour: int, minute: int) -> Seq<char> {
    two_digits(clock_hour(hour) as nat) + seq![':'] + two_digits(minute as nat) + day_half(hour)
}

/// The words before the time of day of a message of the day before.
pub open spec fn yesterday_prefix() -> Seq<char> {
    seq!['y', 'e', 's', 't', 'e', 'r', 'd', 'a', 'y', ' ', 'a', 't', ' ']
}

/// The date: the month in two digits, the day and the year as they are, with
/// slashes between them.
pub open spec fn date_text(date: Date) -> Seq<char> {
    two_digits(date.month as nat) + seq!['/'] + decimal(date.day as nat) + seq!['/']
        + signed_decimal(date.year as int)
}

/// The text for a message sent at the local time `timestamp`, read on the
/// local date `today`.
pub open spec fn timestamp_text(timestamp: LocalDateTime, today: Date) -> Seq<char> {
    if timestamp.date == today {
        clock_text(timestamp.hour as int, timestamp.minute as int)
    } else if timestamp.date.following() == Some(today) {
        yesterday_prefix() + clock_text(timestamp.hour as int, timestamp.minute as int)
    } else {
        date_text(timestamp.date)
    }
}

/// For every minute of the day the clock shows an hour from one to twelve,
/// and the time of day has seven characters: two digits, a colon, two digits,
/// and the mark.
pub proof fn lemma_clock_text_shape(hour: int, minute: int)
    requires
        0 <= hour < 24,
        0 <= minute < 60,
    ensures
        1 <= clock_hour(hour) <= 12,
        clock_text(hour, minute) == seq![
            digit(clock_hour(hour) / 10),
            digit(clock_hour(hour) % 10),
            ':',
            digit(minute / 10),
            digit(minute % 10),
        ] + day_half(hour),
        clock_text(hour, minute).len() == 7,
{
    reveal_with_fuel(decimal, 2);
}

/// The three forms are told apart by the text alone: only a message of the
/// day before starts with a letter, and the third character is a colon in a
/// time of day and a slash in a date.
pub proof fn lemma_forms_are_distinct(timestamp: LocalDateTime, today: Date)
    requires
        timestamp.is_valid(),
    ensures
        ({
            let text = timestamp_text(timestamp, today);
            let same_day = timestamp.date == today;
            let day_before = timestamp.date.following() == Some(today);
            &&& same_day <==> text[2] == ':'
            &&& !same_day && day_before <==> text[0] == 'y'
            &&& !same_day && !day_before <==> text[2] == '/'
        }),
{
    reveal_with_fuel(decimal, 2);
    lemma_clock_text_shape(timestamp.hour as int, timestamp.minute as int);
}

/// Appends the time of day.
fn push_clock(text: &mut String, hour: u8, minute: u8)
    ensures
        final(text)@ == old(text)@ + clock_text(hour as int, minute as int),
{
    if hour == 0 {
        push_two_digits(text, 12);
    } else if hour > 12 {
        push_two_digits(text, (hour - 12) as u32);
    } else {
        push_two_digits(text, hour as u32);
    }
    text.append(":");
    push_two_digits(text, minute as u32);
    if hour >= 12 {
        text.append("pm");
    } else {
        text.append("am");
    }
    proof {
        reveal_strlit(":");
        reveal_strlit("pm");
        reveal_strlit("am");
    }
}

/// Formats the local time `timestamp` of a message for a reader whose local
/// date is `today`: the time of day where the message is of that day, the
/// time of day after "yesterday at" where it is of the day before, and the
/// date in every other case, also that of a later day.
pub fn format_local_timestamp(timestamp: LocalDateTime, today: Date) -> (text: String)
    requires
        timestamp.date.is_valid(),
    ensures
        text@ == timestamp_text(timestamp, today),
{
    let mut text = String::new();
    let date = timestamp.date;
    if date == today {
        push_clock(&mut text, timestamp.hour, timestamp.minute);
    } else if is_day_before(date, today) {
        text.append("yesterday at ");
        proof {
            reveal_strlit("yesterday at ");
        }
        push_clock(&mut text, timestamp.hour, timestamp.minute);
    } else {
        push_two_digits(&mut text, date.month as u32);
        text.append("/");
        push_decimal(&mut text, date.day as u32);
        text.append("/");
        push_signed_decimal(&mut text, date.year);
        proof {
            reveal_strlit("/");
        }
    }
    text
}

/// Whether `today` is the day after `date`.
fn is_day_before(date: Date, today: Date) -> (before: bool)
    requires
        date.is_valid(),
    ensures
        before == (date.following() == Some(today)),
{
    match next_day(date) {
        Some(next) => next == today,
        None => false,
    }
}

/// Formats the time of a message sent at `timestamp` for a reader for whom it
/// is `now`, in the time zone `local_timezone`. Both moments are moved to
/// that time zone first, where each must have a date; their local dates then
/// decide the form.
pub fn format_timestamp(
    timestamp: Timestamp,
    now: Timestamp,
    local_timezone: UtcOffset,
) -> (text: String)
    requires
        timestamp.is_valid(),
        now.is_valid(),
        local_timezone.is_valid(),
        timestamp.representable_in(local_timezone),
        now.representable_in(local_timezone),
    ensures
        text@ == timestamp_text(
            local_date_time(timestamp, local_timezone),
            local_date_time(now, local_timezone).date,
        ),
{
    let timestamp = timestamp.to_offset(local_timezone);
    let now = now.to_offset(local_timezone);
    format_local_timestamp(timestamp, now.date)
}

} // verus!
