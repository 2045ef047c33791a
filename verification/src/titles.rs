//! The headings of the grids and the days of an event, in words.
//!
//! Each text is put together from parts: the digits of a year or of a day,
//! the name of a month, a date in its long form. The functions that end in
//! `_from` take the parts as they are; the others read them off a date.

use crate::calendar::week_start;
use crate::date::{civil_day, civil_month, civil_year, pattern_text, Date, LONG_PATTERN};
use crate::text::{decimal, decimal_text, joined};
use crate::types::CalendarEvent;
use crate::utils::{format_date, month_label, month_name};
use vstd::prelude::*;

verus! {

/// The words for an event without end date.
pub const NO_END: &'static str = "无结束日期";

/// The heading of a month grid: the year and the name of the month.
pub open spec fn month_words(year: Seq<char>, month: int) -> Seq<char> {
    year + " "@ + month_label(month)
}

/// The name of a month and a day of it.
pub open spec fn month_day_words(month: int, day: Seq<char>) -> Seq<char> {
    month_label(month) + " "@ + day
}

/// The heading of a week grid: its first and its last day.
pub open spec fn week_words(first: Seq<char>, last: Seq<char>) -> Seq<char> {
    first + " - "@ + last
}

/// The heading of a day grid: the year, the name of the month, and the day
/// followed by its word.
pub open spec fn day_words(year: Seq<char>, month: int, day: Seq<char>) -> Seq<char> {
    year + " "@ + month_label(month) + " "@ + day + "日"@
}

/// The days of an event: its start and its end, or the words for "no end
/// date" in place of the end.
pub open spec fn span_words(start: Seq<char>, end: Option<Seq<char>>) -> Seq<char> {
    start + " - "@ + match end {
        Some(day) => day,
        None => NO_END@,
    }
}

/// The heading of the month grid round an anchor date.
pub open spec fn month_heading(anchor: int) -> Seq<char> {
    month_words(decimal_text(civil_year(anchor)), civil_month(anchor))
}

/// The name of the month and the day of the month of a date.
pub open spec fn month_and_day(day: int) -> Seq<char> {
    month_day_words(civil_month(day), decimal_text(civil_day(day)))
}

/// The heading of the week grid that starts on the given Monday.
pub open spec fn week_heading(start: int) -> Seq<char> {
    week_words(month_and_day(start), month_and_day(start + 6))
}

/// The heading of the day grid of an anchor date.
pub open spec fn day_heading(anchor: int) -> Seq<char> {
    day_words(
        decimal_text(civil_year(anchor)),
        civil_month(anchor),
        decimal_text(civil_day(anchor)),
    )
}

/// The days of an event in words, its dates in long form.
pub open spec fn span_text(start: int, end: Option<int>) -> Seq<char> {
    span_words(
        pattern_text(start, LONG_PATTERN@),
        match end {
            Some(day) => Some(pattern_text(day, LONG_PATTERN@)),
            None => None,
        },
    )
}

/// The heading of a month grid, from the digits of the year and the number
/// of the month.
pub fn month_title_from(year: &str, month: u32) -> (title: String)
    ensures
        title@ == month_words(year@, month as int),
{
    let mut title = joined(year, " ");
    title.append(month_name(month));
    title
}

/// The name of a month and a day of it, from the number of the month and
/// the digits of the day.
pub fn month_and_day_from(month: u32, day: &str) -> (text: String)
    ensures
        text@ == month_day_words(month as int, day@),
{
    let mut text = joined(month_name(month), " ");
    text.append(day);
    text
}

/// The heading of a week grid, from the words for its first and its last
/// day.
pub fn week_title_from(first: &str, last: &str) -> (title: String)
    ensures
        title@ == week_words(first@, last@),
{
    let mut title = joined(first, " - ");
    title.append(last);
    title
}

/// The heading of a day grid, from the digits of the year, the number of
/// the month and the digits of the day.
pub fn day_title_from(year: &str, month: u32, day: &str) -> (title: String)
    ensures
        title@ == day_words(year@, month as int, day@),
{
    let mut title = joined(year, " ");
    title.append(month_name(month));
    title.append(" ");
    title.append(day);
    title.append("日");
    title
}

/// The days of an event in words, from its dates as they are written.
pub fn event_span_from(start: &str, end: Option<&str>) -> (text: String)
    ensures
        text@ == span_words(
            start@,
            match end {
                Some(day) => Some(day@),
                None => None,
            },
        ),
{
    let mut text = joined(start, " - ");
    match end {
        Some(day) => {
            text.append(day);
        },
        None => {
            text.append(NO_END);
        },
    }
    text
}

/// The heading of the month grid round an anchor date.
pub fn month_title(anchor: &Date) -> (title: String)
    ensures
        title@ == month_heading(anchor@),
{
    let year = decimal(anchor.year() as i128);
    month_title_from(year.as_str(), anchor.month())
}

/// The name of the month and the day of the month of a date.
pub fn month_and_day_text(date: &Date) -> (text: String)
    ensures
        text@ == month_and_day(date@),
{
    let day = decimal(date.day() as i128);
    month_and_day_from(date.month(), day.as_str())
}

/// The heading of the week grid round an anchor date; nothing where the week
/// has no grid.
pub fn week_title(anchor: &Date) -> (title: Option<String>)
    ensures
        match title {
            Some(text) => week_start(anchor@) matches Some(start) && text@ == week_heading(start),
            None => week_start(anchor@) is None,
        },
{
    let offset: i32 = anchor.days_from_monday() as i32;
    let start = match anchor.plus_days(-offset) {
        Some(date) => date,
        None => {
            return None;
        },
    };
    let end = match start.plus_days(6) {
        Some(date) => date,
        None => {
            return None;
        },
    };
    let first = month_and_day_text(&start);
    let last = month_and_day_text(&end);
    Some(week_title_from(first.as_str(), last.as_str()))
}

/// The heading of the day grid of an anchor date.
pub fn day_title(anchor: &Date) -> (title: String)
    ensures
        title@ == day_heading(anchor@),
{
    let year = decimal(anchor.year() as i128);
    let day = decimal(anchor.day() as i128);
    day_title_from(year.as_str(), anchor.month(), day.as_str())
}

/// The days of an event in words.
pub fn event_span(event: &CalendarEvent) -> (text: String)
    ensures
        text@ == span_text(event@.content.start_date, event@.content.end_date),
{
    let start = format_date(&event.start_date);
    match event.end_date {
        Some(end) => {
            let last = format_date(&end);
            event_span_from(start.as_str(), Some(last.as_str()))
        },
        None => event_span_from(start.as_str(), None),
    }
}

} // verus!
