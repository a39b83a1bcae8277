//! Calendar dates of the proleptic Gregorian calendar and the day count
//! between them.

use chrono::{Datelike, NaiveDate};
use vstd::prelude::*;

verus! {

/// Earliest year a date can have.
pub const MIN_YEAR: i32 = -262143;

/// Latest year a date can have.
pub const MAX_YEAR: i32 = 262142;

/// Format of a configured reference date: year, month and day with dashes.
pub const ISO_DATE_FORMAT: &'static str = "%Y-%m-%d";

/// A year, a month and a day as mathematical integers.
pub struct CalendarDay {
    pub year: int,
    pub month: int,
    pub day: int,
}

/// A year with a 29th of February.
pub open spec fn is_leap_year(year: int) -> bool {
    year % 4 == 0 && (year % 100 != 0 || year % 400 == 0)
}

/// Number of days of a month; the month is a number from 1 to 12.
pub open spec fn days_in_month(year: int, month: int) -> int {
    if month == 2 {
        if is_leap_year(year) {
            29
        } else {
            28
        }
    } else if month == 4 || month == 6 || month == 9 || month == 11 {
        30
    } else {
        31
    }
}

/// Days of `year` that lie before the first day of `month`.
pub open spec fn days_before_month(year: int, month: int) -> int
    decreases month,
{
    if month <= 1 {
        0
    } else {
        days_before_month(year, month - 1) + days_in_month(year, month - 1)
    }
}

/// Days between the start of year 1 and the start of `year`: 365 for each
/// year, and one more for each leap year among them.
pub open spec fn days_before_year(year: int) -> int {
    let y = year - 1;
    365 * y + y / 4 - y / 100 + y / 400
}

impl CalendarDay {
    /// The day exists in the calendar and its year is in range.
    pub open spec fn is_valid(self) -> bool {
        &&& MIN_YEAR <= self.year <= MAX_YEAR
        &&& 1 <= self.month <= 12
        &&& 1 <= self.day <= days_in_month(self.year, self.month)
    }

    /// Count of days from the start of year 1, whose first day has number 1.
    pub open spec fn day_number(self) -> int {
        days_before_year(self.year) + days_before_month(self.year, self.month) + self.day
    }

    /// This day comes earlier in the calendar than `other`.
    pub open spec fn is_before(self, other: CalendarDay) -> bool {
        ||| self.year < other.year
        ||| self.year == other.year && self.month < other.month
        ||| self.year == other.year && self.month == other.month && self.day < other.day
    }

    /// The day after this one.
    pub open spec fn next(self) -> CalendarDay {
        if self.day < days_in_month(self.year, self.month) {
            CalendarDay { year: self.year, month: self.month, day: self.day + 1 }
        } else if self.month < 12 {
            CalendarDay { year: self.year, month: self.month + 1, day: 1 }
        } else {
            CalendarDay { year: self.year + 1, month: 1, day: 1 }
        }
    }
}

/// The day with this year, month and day.
pub open spec fn calendar_day(year: int, month: int, day: int) -> CalendarDay {
    CalendarDay { year, month, day }
}

/// What `chrono::NaiveDate::parse_from_str` makes of `text` under `format`:
/// year, month and day of the date, or `None` where it reports an error.
pub uninterp spec fn chrono_parsed_date(text: Seq<char>, format: Seq<char>) -> Option<
    (int, int, int),
>;

/// A year, month and day of machine integers as a calendar day.
pub open spec fn triple_as_day(t: (i32, u32, u32)) -> CalendarDay {
    calendar_day(t.0 as int, t.1 as int, t.2 as int)
}

/// A year, month and day of machine integers as mathematical integers.
pub open spec fn triple_as_ints(t: Option<(i32, u32, u32)>) -> Option<(int, int, int)> {
    match t {
        Some((y, m, d)) => Some((y as int, m as int, d as int)),
        None => None,
    }
}

/// Calls `chrono::NaiveDate::from_ymd_opt` and reads the date back.
/// Claimed: a date comes back exactly when the year is within chrono's range
/// and the day exists in that month of that year, and it then has the year,
/// month and day that went in.
#[verifier::external_body]
fn chrono_from_ymd(year: i32, month: u32, day: u32) -> (r: Option<(i32, u32, u32)>)
    ensures
        calendar_day(year as int, month as int, day as int).is_valid() ==> r == Some(
            (year, month, day),
        ),
        !calendar_day(year as int, month as int, day as int).is_valid() ==> r.is_none(),
{
    NaiveDate::from_ymd_opt(year, month, day).map(|d| (d.year(), d.month(), d.day()))
}

/// Calls `chrono::NaiveDate::signed_duration_since` on two dates and
/// `chrono::TimeDelta::num_days` on the difference.
/// Claimed: the result is the number of days from `earlier` to `later` in the
/// proleptic Gregorian calendar, negative where `later` comes first.
#[verifier::external_body]
fn chrono_days_between(later: (i32, u32, u32), earlier: (i32, u32, u32)) -> (r: Option<i64>)
    ensures
        triple_as_day(later).is_valid() && triple_as_day(earlier).is_valid() ==> r.is_some()
            && r.unwrap() == triple_as_day(later).day_number() - triple_as_day(
            earlier,
        ).day_number(),
{
    let a = NaiveDate::from_ymd_opt(later.0, later.1, later.2)?;
    let b = NaiveDate::from_ymd_opt(earlier.0, earlier.1, earlier.2)?;
    Some(a.signed_duration_since(b).num_days())
}

/// Calls `chrono::NaiveDate::parse_from_str` and reads the date back.
/// Only the format of year, month and day is admitted: under a format with
/// an ISO week year chrono's arithmetic on the year can overflow.
/// Claimed: the outcome depends on the two strings alone, and a date that
/// comes back exists in the calendar with its year in chrono's range.
#[verifier::external_body]
fn chrono_parse_date(text: &str, format: &str) -> (r: Option<(i32, u32, u32)>)
    requires
        format@ == ISO_DATE_FORMAT@,
    ensures
        triple_as_ints(r) == chrono_parsed_date(text@, format@),
        r matches Some(t) ==> triple_as_day(t).is_valid(),
{
    NaiveDate::parse_from_str(text, format).ok().map(|d| (d.year(), d.month(), d.day()))
}

/// A day of the calendar that exists.
#[derive(Debug, Clone, Copy, PartialEq, Eq)]
pub struct ConferenceDate {
    year: i32,
    month: u32,
    day: u32,
}

impl View for ConferenceDate {
    type V = CalendarDay;

    closed spec fn view(&self) -> CalendarDay {
        calendar_day(self.year as int, self.month as int, self.day as int)
    }
}

/// The day that `chrono_parsed_date` reports, as a calendar day.
pub open spec fn parsed_day(text: Seq<char>, format: Seq<char>) -> Option<CalendarDay> {
    match chrono_parsed_date(text, format) {
        Some((y, m, d)) => Some(calendar_day(y, m, d)),
        None => None,
    }
}

/// The calendar day of a date, if there is a date.
pub open spec fn date_view(date: Option<ConferenceDate>) -> Option<CalendarDay> {
    match date {
        Some(d) => Some(d@),
        None => None,
    }
}

impl ConferenceDate {
    /// Every date is a day that the calendar has.
    #[verifier::type_invariant]
    pub open spec fn well_formed(self) -> bool {
        self@.is_valid()
    }

    /// The date with this year, month and day, if the calendar has it.
    pub fn from_ymd_opt(year: i32, month: u32, day: u32) -> (r: Option<ConferenceDate>)
        ensures
            date_view(r) == if calendar_day(year as int, month as int, day as int).is_valid() {
                Some(calendar_day(year as int, month as int, day as int))
            } else {
                None
            },
            r matches Some(date) ==> date@.is_valid(),
    {
        match chrono_from_ymd(year, month, day) {
            Some((y, m, d)) => Some(ConferenceDate { year: y, month: m, day: d }),
            None => None,
        }
    }

    /// The date with this year, month and day, which the calendar has.
    pub(crate) fn from_valid_ymd(year: i32, month: u32, day: u32) -> (r: ConferenceDate)
        requires
            calendar_day(year as int, month as int, day as int).is_valid(),
        ensures
            r@ == calendar_day(year as int, month as int, day as int),
            r@.is_valid(),
    {
        ConferenceDate { year, month, day }
    }

    /// The year of the date.
    pub fn year(&self) -> (y: i32)
        ensures
            y == self@.year,
            MIN_YEAR <= y <= MAX_YEAR,
    {
        proof {
            use_type_invariant(self);
        }
        self.year
    }

    /// The month of the date, from 1 to 12.
    pub fn month(&self) -> (m: u32)
        ensures
            m == self@.month,
            1 <= m <= 12,
    {
        proof {
            use_type_invariant(self);
        }
        self.month
    }

    /// The day of the month, from 1.
    pub fn day(&self) -> (d: u32)
        ensures
            d == self@.day,
            1 <= d <= days_in_month(self@.year, self@.month),
    {
        proof {
            use_type_invariant(self);
        }
        self.day
    }

    /// Reads a date written as year, month and day with dashes between
    /// them.
    pub fn parse_iso(text: &str) -> (r: Option<ConferenceDate>)
        ensures
            date_view(r) == parsed_day(text@, ISO_DATE_FORMAT@),
            r matches Some(date) ==> date@.is_valid(),
    {
        match chrono_parse_date(text, ISO_DATE_FORMAT) {
            Some((y, m, d)) => Some(ConferenceDate { year: y, month: m, day: d }),
            None => None,
        }
    }

    /// Days from `earlier` to this date; negative where this date comes
    /// first.
    pub fn days_since(&self, earlier: &ConferenceDate) -> (n: i64)
        ensures
            n == self@.day_number() - earlier@.day_number(),
            self@.is_valid(),
            earlier@.is_valid(),
    {
        proof {
            use_type_invariant(self);
            use_type_invariant(earlier);
        }
        let difference = chrono_days_between(
            (self.year, self.month, self.day),
            (earlier.year, earlier.month, earlier.day),
        );
        match difference {
            Some(n) => n,
            // Both dates exist, so chrono always has a difference for them.
            None => 0,
        }
    }
}

/// The day after a day of the calendar has the next day number.
pub proof fn lemma_next_day_number(day: CalendarDay)
    requires
        day.is_valid(),
    ensures
        day.next().day_number() == day.day_number() + 1,
        day.year < MAX_YEAR ==> day.next().is_valid(),
{
    reveal_with_fuel(days_before_month, 13);
}

/// Day numbers follow the calendar: an earlier day has the smaller number.
pub proof fn lemma_day_number_order(a: CalendarDay, b: CalendarDay)
    requires
        a.is_valid(),
        b.is_valid(),
    ensures
        a.is_before(b) <==> a.day_number() < b.day_number(),
{
    reveal_with_fuel(days_before_month, 13);
    lemma_year_bounds(a);
    lemma_year_bounds(b);
    if a.year < b.year {
        lemma_days_before_year_monotonic(a.year + 1, b.year);
    } else if b.year < a.year {
        lemma_days_before_year_monotonic(b.year + 1, a.year);
    }
}

/// A day of a year lies between the start of that year and the start of the
/// next.
proof fn lemma_year_bounds(day: CalendarDay)
    requires
        day.is_valid(),
    ensures
        days_before_year(day.year) < day.day_number() <= days_before_year(day.year + 1),
{
    reveal_with_fuel(days_before_month, 13);
}

/// A later year starts no earlier.
proof fn lemma_days_before_year_monotonic(a: int, b: int)
    requires
        a <= b,
    ensures
        days_before_year(a) <= days_before_year(b),
    decreases b - a,
{
    if a < b {
        lemma_days_before_year_monotonic(a, b - 1);
    }
}

} // verus!
