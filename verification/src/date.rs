//! Calendar dates as day numbers of the proleptic Gregorian calendar.
//!
//! A [`Date`] holds the number of its day, counted from January 1 of year 1
//! as day 1. Order, distance and shifting by days are plain integer
//! arithmetic on that number. Year, month, day of month, weekday, parsing and
//! formatting come from `chrono`, each behind one small function whose
//! contract is taken on trust.

use chrono::Datelike;
use vstd::prelude::*;

verus! {

/// Day number of the earliest date `chrono::NaiveDate` holds (January 1, -262143).
pub const MIN_DAYS: i32 = -95_746_129;

/// Day number of the latest date `chrono::NaiveDate` holds (December 31, 262142).
pub const MAX_DAYS: i32 = 95_745_399;

/// Year of the earliest date that can be held.
pub const MIN_YEAR: i32 = -262_143;

/// Year of the latest date that can be held.
pub const MAX_YEAR: i32 = 262_142;

/// Whether a day number lies in the range of dates that can be held.
pub open spec fn in_range(days: int) -> bool {
    MIN_DAYS <= days <= MAX_DAYS
}

/// Year of the date with the given day number, as `chrono` counts it.
pub uninterp spec fn civil_year(days: int) -> int;

/// Month (1 to 12) of the date with the given day number.
pub uninterp spec fn civil_month(days: int) -> int;

/// Day of month of the date with the given day number.
pub uninterp spec fn civil_day(days: int) -> int;

/// Weekday of the date with the given day number, Monday being 0 and Sunday
/// 6: day 1 is a Monday, and the days of the week follow one another.
pub open spec fn weekday_index(days: int) -> int {
    (days - 1) % 7
}

/// Day number of the calendar date (year, month, day), where that date exists
/// and can be held.
pub uninterp spec fn civil_to_days(year: int, month: int, day: int) -> Option<int>;

/// Day number that `chrono` reads from a text in the form `%Y-%m-%d`.
pub uninterp spec fn ymd_text_to_days(text: Seq<char>) -> Option<int>;

/// Day number of the calendar date written in an RFC 3339 timestamp.
pub uninterp spec fn rfc3339_text_to_days(text: Seq<char>) -> Option<int>;

/// The text `chrono` prints for a date by default (`2024-03-05`).
pub uninterp spec fn iso_text(days: int) -> Seq<char>;

/// The text `chrono` prints for a date under a `strftime` pattern.
pub uninterp spec fn pattern_text(days: int, pattern: Seq<char>) -> Seq<char>;

/// Trusted: `NaiveDate::year` of the date that
/// `NaiveDate::from_num_days_from_ce_opt` makes of `days`. That constructor
/// yields a date for every day number from `MIN_DAYS` to `MAX_DAYS`. The
/// contract gives the year its name, and says that it lies in the years
/// `chrono` holds dates of.
#[verifier::external_body]
fn year_of_days(days: i32) -> (year: i32)
    requires
        in_range(days as int),
    ensures
        year == civil_year(days as int),
        MIN_YEAR <= year <= MAX_YEAR,
{
    chrono::NaiveDate::from_num_days_from_ce_opt(days).unwrap().year()
}

/// Trusted: `NaiveDate::month` of the date with this day number. `chrono`
/// documents the result as ranging from 1 to 12.
#[verifier::external_body]
fn month_of_days(days: i32) -> (month: u32)
    requires
        in_range(days as int),
    ensures
        month == civil_month(days as int),
        1 <= month <= 12,
{
    chrono::NaiveDate::from_num_days_from_ce_opt(days).unwrap().month()
}

/// Trusted: `NaiveDate::day` of the date with this day number. The contract
/// only gives the day its name.
#[verifier::external_body]
fn day_of_days(days: i32) -> (day: u32)
    requires
        in_range(days as int),
    ensures
        day == civil_day(days as int),
{
    chrono::NaiveDate::from_num_days_from_ce_opt(days).unwrap().day()
}

/// Trusted: `NaiveDate::weekday` of the date with this day number, as the
/// number `Weekday::num_days_from_monday` gives it: 0 for Monday up to 6 for
/// Sunday. Day 1, the first of January of year 1, is a Monday, and every
/// day is the weekday after that of the day before: so the number is that
/// of the days since day 1, taken modulo 7.
#[verifier::external_body]
fn weekday_of_days(days: i32) -> (index: u32)
    requires
        in_range(days as int),
    ensures
        index == weekday_index(days as int),
{
    chrono::NaiveDate::from_num_days_from_ce_opt(days).unwrap().weekday().num_days_from_monday()
}

/// Trusted: `NaiveDate::from_ymd_opt`, the date handed back as its day number
/// (`Datelike::num_days_from_ce`). Where a date comes back it can be held, and
/// its year, month and day of month are the ones asked for.
#[verifier::external_body]
fn days_of_civil(year: i32, month: u32, day: u32) -> (days: Option<i32>)
    ensures
        match days {
            Some(n) => {
                &&& civil_to_days(year as int, month as int, day as int) == Some(n as int)
                &&& in_range(n as int)
                &&& civil_year(n as int) == year
                &&& civil_month(n as int) == month
                &&& civil_day(n as int) == day
            },
            None => civil_to_days(year as int, month as int, day as int) is None,
        },
{
    chrono::NaiveDate::from_ymd_opt(year, month, day).map(|d| d.num_days_from_ce())
}

/// Trusted: `NaiveDate::parse_from_str` with the pattern `%Y-%m-%d`, the date
/// handed back as its day number. Whatever date `chrono` reads can be held.
#[verifier::external_body]
fn days_of_ymd_text(text: &str) -> (days: Option<i32>)
    ensures
        match days {
            Some(n) => ymd_text_to_days(text@) == Some(n as int) && in_range(n as int),
            None => ymd_text_to_days(text@) is None,
        },
{
    chrono::NaiveDate::parse_from_str(text, "%Y-%m-%d").ok().map(|d| d.num_days_from_ce())
}

/// Trusted: `DateTime::parse_from_rfc3339`, then the calendar date of
/// `DateTime::naive_local`, handed back as its day number. A timestamp in
/// that form has a year of four digits, so its local date can be held.
#[verifier::external_body]
fn days_of_rfc3339_text(text: &str) -> (days: Option<i32>)
    ensures
        match days {
            Some(n) => rfc3339_text_to_days(text@) == Some(n as int) && in_range(n as int),
            None => rfc3339_text_to_days(text@) is None,
        },
{
    chrono::DateTime::parse_from_rfc3339(text).ok().map(|t| t.naive_local().date().num_days_from_ce())
}

/// Trusted: the `Display` text of the `NaiveDate` with this day number.
#[verifier::external_body]
fn iso_text_of_days(days: i32) -> (text: String)
    requires
        in_range(days as int),
    ensures
        text@ == iso_text(days as int),
{
    chrono::NaiveDate::from_num_days_from_ce_opt(days).unwrap().to_string()
}

/// Trusted: `NaiveDate::format` with one of the two patterns this library
/// prints dates in, both made of `%Y`, `%m`, `%d` and literal text.
#[verifier::external_body]
fn pattern_text_of_days(days: i32, pattern: &str) -> (text: String)
    requires
        in_range(days as int),
        pattern@ == LONG_PATTERN@ || pattern@ == SHORT_PATTERN@,
    ensures
        text@ == pattern_text(days as int, pattern@),
{
    chrono::NaiveDate::from_num_days_from_ce_opt(days).unwrap().format(pattern).to_string()
}

/// Trusted: the calendar date of `chrono::Local::now`, as its day number.
/// Nothing is known of it but that it is a date `chrono` holds.
#[verifier::external_body]
fn local_today_days() -> (days: i32)
    ensures
        in_range(days as int),
{
    chrono::Local::now().naive_local().date().num_days_from_ce()
}

/// Trusted: `chrono::Utc::now`, in milliseconds since the Unix epoch
/// (`DateTime::timestamp_millis`). Nothing is promised of the value.
#[verifier::external_body]
fn utc_now_millis() -> i64 {
    chrono::Utc::now().timestamp_millis()
}

/// Pattern of the long form of a date: year, month and day, each followed by
/// its word.
pub const LONG_PATTERN: &'static str = "%Y年%m月%d日";

/// Pattern of the short form of a date: month and day.
pub const SHORT_PATTERN: &'static str = "%m/%d";

/// The current time in milliseconds since the Unix epoch.
pub fn now_millis() -> i64 {
    utc_now_millis()
}

/// A day of the week.
#[derive(Clone, Copy, Debug, PartialEq, Eq, Hash, Structural)]
pub enum Weekday {
    Mon,
    Tue,
    Wed,
    Thu,
    Fri,
    Sat,
    Sun,
}

impl Weekday {
    /// Position of the day in a week that starts on Monday (0 to 6).
    pub open spec fn index(self) -> int {
        match self {
            Weekday::Mon => 0,
            Weekday::Tue => 1,
            Weekday::Wed => 2,
            Weekday::Thu => 3,
            Weekday::Fri => 4,
            Weekday::Sat => 5,
            Weekday::Sun => 6,
        }
    }

    /// The day at the given position of a week that starts on Monday.
    pub open spec fn at(index: int) -> Weekday {
        if index == 0 {
            Weekday::Mon
        } else if index == 1 {
            Weekday::Tue
        } else if index == 2 {
            Weekday::Wed
        } else if index == 3 {
            Weekday::Thu
        } else if index == 4 {
            Weekday::Fri
        } else if index == 5 {
            Weekday::Sat
        } else {
            Weekday::Sun
        }
    }

    /// Number of days from Monday to this day.
    pub fn days_from_monday(&self) -> (n: u32)
        ensures
            n == self.index(),
            n <= 6,
    {
        match self {
            Weekday::Mon => 0,
            Weekday::Tue => 1,
            Weekday::Wed => 2,
            Weekday::Thu => 3,
            Weekday::Fri => 4,
            Weekday::Sat => 5,
            Weekday::Sun => 6,
        }
    }

    /// The day that lies `n` days after a Monday, for `n` up to 6.
    pub fn from_days_from_monday(n: u32) -> (day: Option<Weekday>)
        ensures
            day is Some <==> n <= 6,
            day matches Some(d) ==> d == Weekday::at(n as int) && d.index() == n,
    {
        if n == 0 {
            Some(Weekday::Mon)
        } else if n == 1 {
            Some(Weekday::Tue)
        } else if n == 2 {
            Some(Weekday::Wed)
        } else if n == 3 {
            Some(Weekday::Thu)
        } else if n == 4 {
            Some(Weekday::Fri)
        } else if n == 5 {
            Some(Weekday::Sat)
        } else if n == 6 {
            Some(Weekday::Sun)
        } else {
            None
        }
    }
}

/// Day number of the date a text stands for, under the rule of two forms:
/// 10 characters are a plain date, anything else is a timestamp.
pub open spec fn date_of_text(text: Seq<char>) -> Option<int> {
    if text.len() == 10 {
        ymd_text_to_days(text)
    } else {
        rfc3339_text_to_days(text)
    }
}

/// A calendar date without time or zone.
#[derive(Clone, Copy, Debug, PartialEq, Eq, PartialOrd, Ord, Hash, Structural)]
pub struct Date {
    days: i32,
}

impl View for Date {
    type V = int;

    /// The date's day number.
    closed spec fn view(&self) -> int {
        self.days as int
    }
}

impl Date {
    #[verifier::type_invariant]
    spec fn held(self) -> bool {
        in_range(self.days as int)
    }

    /// The date with the given day number, where it can be held.
    pub fn from_days(days: i32) -> (date: Option<Date>)
        ensures
            date is Some <==> in_range(days as int),
            date matches Some(d) ==> d@ == days,
    {
        if MIN_DAYS <= days && days <= MAX_DAYS {
            Some(Date { days })
        } else {
            None
        }
    }

    /// The date's day number.
    pub fn days(&self) -> (days: i32)
        ensures
            days == self@,
            in_range(days as int),
    {
        proof {
            use_type_invariant(self);
        }
        self.days
    }

    /// The calendar date (year, month, day), where it exists and can be held.
    pub fn from_ymd(year: i32, month: u32, day: u32) -> (date: Option<Date>)
        ensures
            match date {
                Some(d) => {
                    &&& civil_to_days(year as int, month as int, day as int) == Some(d@)
                    &&& civil_year(d@) == year
                    &&& civil_month(d@) == month
                    &&& civil_day(d@) == day
                },
                None => civil_to_days(year as int, month as int, day as int) is None,
            },
    {
        match days_of_civil(year, month, day) {
            Some(days) => Some(Date { days }),
            None => None,
        }
    }

    /// The year.
    pub fn year(&self) -> (year: i32)
        ensures
            year == civil_year(self@),
            MIN_YEAR <= year <= MAX_YEAR,
    {
        proof {
            use_type_invariant(self);
        }
        year_of_days(self.days)
    }

    /// The month, from 1 to 12.
    pub fn month(&self) -> (month: u32)
        ensures
            month == civil_month(self@),
            1 <= month <= 12,
    {
        proof {
            use_type_invariant(self);
        }
        month_of_days(self.days)
    }

    /// The day of the month.
    pub fn day(&self) -> (day: u32)
        ensures
            day == civil_day(self@),
    {
        proof {
            use_type_invariant(self);
        }
        day_of_days(self.days)
    }

    /// The day of the week.
    pub fn weekday(&self) -> (day: Weekday)
        ensures
            day == Weekday::at(weekday_index(self@)),
            day.index() == weekday_index(self@),
    {
        proof {
            use_type_invariant(self);
        }
        let index: u32 = weekday_of_days(self.days);
        Weekday::from_days_from_monday(index).unwrap()
    }

    /// Number of days from the Monday of the date's week to the date (0 to 6).
    pub fn days_from_monday(&self) -> (n: u32)
        ensures
            n == weekday_index(self@),
            n <= 6,
    {
        proof {
            use_type_invariant(self);
        }
        weekday_of_days(self.days)
    }

    /// The date `n` days later (earlier for a negative `n`), where it can be
    /// held.
    pub fn plus_days(&self, n: i32) -> (date: Option<Date>)
        ensures
            in_range(self@),
            date is Some <==> in_range(self@ + n),
            date matches Some(d) ==> d@ == self@ + n,
    {
        proof {
            use_type_invariant(self);
        }
        let sum: i64 = self.days as i64 + n as i64;
        if MIN_DAYS as i64 <= sum && sum <= MAX_DAYS as i64 {
            Some(Date { days: sum as i32 })
        } else {
            None
        }
    }

    /// Number of days from `earlier` to this date; negative where this date
    /// comes first.
    pub fn days_since(&self, earlier: &Date) -> (n: i32)
        ensures
            in_range(self@),
            in_range(earlier@),
            n == self@ - earlier@,
    {
        proof {
            use_type_invariant(self);
            use_type_invariant(earlier);
        }
        self.days - earlier.days
    }

    /// Whether this date is the same day as `other`.
    pub fn is_same(&self, other: &Date) -> (same: bool)
        ensures
            same == (self@ == other@),
    {
        self.days == other.days
    }

    /// Whether this date comes before `other`.
    pub fn is_before(&self, other: &Date) -> (before: bool)
        ensures
            before == (self@ < other@),
    {
        self.days < other.days
    }

    /// Whether this date lies in the days from `first` to `last`, both included.
    pub fn is_within(&self, first: &Date, last: &Date) -> (within: bool)
        ensures
            within == (first@ <= self@ <= last@),
    {
        first.days <= self.days && self.days <= last.days
    }

    /// The date read from a text in the form `2024-03-05`.
    pub fn parse_ymd(text: &str) -> (date: Option<Date>)
        ensures
            match date {
                Some(d) => ymd_text_to_days(text@) == Some(d@),
                None => ymd_text_to_days(text@) is None,
            },
    {
        match days_of_ymd_text(text) {
            Some(days) => Some(Date { days }),
            None => None,
        }
    }

    /// The calendar date written in an RFC 3339 timestamp such as
    /// `2024-03-05T10:00:00Z`; the time and the zone are dropped.
    pub fn parse_rfc3339(text: &str) -> (date: Option<Date>)
        ensures
            match date {
                Some(d) => rfc3339_text_to_days(text@) == Some(d@),
                None => rfc3339_text_to_days(text@) is None,
            },
    {
        match days_of_rfc3339_text(text) {
            Some(days) => Some(Date { days }),
            None => None,
        }
    }

    /// The date a text stands for: a text of 10 characters is read in the
    /// form `2024-03-05`, any other as an RFC 3339 timestamp, of which the
    /// calendar date is kept.
    pub fn parse(text: &str) -> (date: Option<Date>)
        ensures
            match date {
                Some(d) => date_of_text(text@) == Some(d@),
                None => date_of_text(text@) is None,
            },
    {
        if text.unicode_len() == 10 {
            Date::parse_ymd(text)
        } else {
            Date::parse_rfc3339(text)
        }
    }

    /// The date in the form `2024-03-05`.
    pub fn to_iso_text(&self) -> (text: String)
        ensures
            text@ == iso_text(self@),
    {
        proof {
            use_type_invariant(self);
        }
        iso_text_of_days(self.days)
    }

    /// The date in its long form: year, month and day, each followed by its
    /// word.
    pub fn to_long_text(&self) -> (text: String)
        ensures
            text@ == pattern_text(self@, LONG_PATTERN@),
    {
        proof {
            use_type_invariant(self);
        }
        pattern_text_of_days(self.days, LONG_PATTERN)
    }

    /// The date in its short form: month and day.
    pub fn to_short_text(&self) -> (text: String)
        ensures
            text@ == pattern_text(self@, SHORT_PATTERN@),
    {
        proof {
            use_type_invariant(self);
        }
        pattern_text_of_days(self.days, SHORT_PATTERN)
    }

    /// The current date of the local clock.
    pub fn today() -> (date: Date)
        ensures
            in_range(date@),
    {
        let days: i32 = local_today_days();
        Date { days }
    }
}

} // verus!
