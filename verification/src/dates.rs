//! Date mentions in free text: a month name followed by a day, or a day
//! followed by a month name, resolved within the conference year.

use crate::calendar::{calendar_day, date_view, CalendarDay, ConferenceDate};
use crate::models::VIVATECH_YEAR;
use crate::text::{
    ascii_lowercase, digits_value, lowercase, lowercased, option_u32_as_int, parse_u32,
    parsed_unsigned, same_text, without_plus,
};
use regex::Regex;
use vstd::prelude::*;
use vstd::utf8::is_ascii_chars;

verus! {

/// A month name, white space, and a day of one or two digits.
pub const MONTH_DAY_PATTERN: &'static str =
    "(January|February|March|April|May|June|July|August|September|October|November|December)\\s+(\\d{1,2})";

/// A day of one or two digits with an optional ordinal suffix, white space,
/// and a month name.
pub const DAY_MONTH_PATTERN: &'static str =
    "(\\d{1,2})(?:st|nd|rd|th)?\\s+(January|February|March|April|May|June|July|August|September|October|November|December)";

/// The capture groups of the first match of `pattern` in `text`, as
/// `regex::Regex::captures` reports them: group 0 is the whole match, and a
/// group that took no part in the match is `None`. `None` where there is no
/// match or `regex::Regex::new` rejects the pattern.
pub uninterp spec fn regex_captures(pattern: Seq<char>, text: Seq<char>) -> Option<
    Seq<Option<Seq<char>>>,
>;

/// Calls `regex::Regex::new` on `pattern` and `regex::Regex::captures` on
/// `text`, and copies the text of each group.
/// Claimed: the outcome depends on the two strings alone.
#[verifier::external_body]
fn first_captures(pattern: &str, text: &str) -> (groups: Option<Vec<Option<String>>>)
    ensures
        groups.deep_view() == regex_captures(pattern@, text@),
{
    let regex = Regex::new(pattern).ok()?;
    let captures = regex.captures(text)?;
    Some(captures.iter().map(|group| group.map(|m| m.as_str().to_string())).collect())
}

/// The number of the month whose English name, in small letters, is `lower`.
pub open spec fn month_number(lower: Seq<char>) -> Option<int> {
    if lower == "january"@ {
        Some(1)
    } else if lower == "february"@ {
        Some(2)
    } else if lower == "march"@ {
        Some(3)
    } else if lower == "april"@ {
        Some(4)
    } else if lower == "may"@ {
        Some(5)
    } else if lower == "june"@ {
        Some(6)
    } else if lower == "july"@ {
        Some(7)
    } else if lower == "august"@ {
        Some(8)
    } else if lower == "september"@ {
        Some(9)
    } else if lower == "october"@ {
        Some(10)
    } else if lower == "november"@ {
        Some(11)
    } else if lower == "december"@ {
        Some(12)
    } else {
        None
    }
}

/// Group `i` of a match, `None` where the match has no such group.
pub open spec fn group(groups: Seq<Option<Seq<char>>>, i: int) -> Option<Seq<char>> {
    if 0 <= i < groups.len() {
        groups[i]
    } else {
        None
    }
}

/// The day of the conference year that a month name and a day number name.
pub open spec fn named_day(month: Seq<char>, day: Seq<char>) -> Option<CalendarDay> {
    match (month_number(lowercase(month)), parsed_unsigned(day, u32::MAX as int)) {
        (Some(m), Some(d)) => if calendar_day(VIVATECH_YEAR as int, m, d).is_valid() {
            Some(calendar_day(VIVATECH_YEAR as int, m, d))
        } else {
            None
        },
        _ => None,
    }
}

/// The day that a month name and a day number name, where both are there.
pub open spec fn resolved_day(month: Option<Seq<char>>, day: Option<Seq<char>>) -> Option<
    CalendarDay,
> {
    match (month, day) {
        (Some(m), Some(d)) => named_day(m, d),
        _ => None,
    }
}

/// The date of a match of the month-then-day pattern.
pub open spec fn month_day_date(groups: Seq<Option<Seq<char>>>) -> Option<CalendarDay> {
    resolved_day(group(groups, 1), group(groups, 2))
}

/// The date of a match of the day-then-month pattern.
pub open spec fn day_month_date(groups: Seq<Option<Seq<char>>>) -> Option<CalendarDay> {
    resolved_day(group(groups, 2), group(groups, 1))
}

/// The date of the first match of the month-then-day pattern in `text`.
pub open spec fn month_day_mention(text: Seq<char>) -> Option<CalendarDay> {
    match regex_captures(MONTH_DAY_PATTERN@, text) {
        Some(groups) => month_day_date(groups),
        None => None,
    }
}

/// The date of the first match of the day-then-month pattern in `text`.
pub open spec fn day_month_mention(text: Seq<char>) -> Option<CalendarDay> {
    match regex_captures(DAY_MONTH_PATTERN@, text) {
        Some(groups) => day_month_date(groups),
        None => None,
    }
}

/// The date that a text mentions: that of the first month-then-day match if
/// it resolves, else that of the first day-then-month match.
pub open spec fn date_in_text(text: Seq<char>) -> Option<CalendarDay> {
    if month_day_mention(text) is Some {
        month_day_mention(text)
    } else {
        day_month_mention(text)
    }
}

/// The English name of month `m`, as the patterns spell it.
pub open spec fn month_name(m: int) -> Seq<char> {
    if m == 1 {
        "January"@
    } else if m == 2 {
        "February"@
    } else if m == 3 {
        "March"@
    } else if m == 4 {
        "April"@
    } else if m == 5 {
        "May"@
    } else if m == 6 {
        "June"@
    } else if m == 7 {
        "July"@
    } else if m == 8 {
        "August"@
    } else if m == 9 {
        "September"@
    } else if m == 10 {
        "October"@
    } else if m == 11 {
        "November"@
    } else {
        "December"@
    }
}

/// The month number of a name already in small letters.
pub fn month_number_of(lower: &str) -> (r: Option<u32>)
    ensures
        option_u32_as_int(r) == month_number(lower@),
{
    if same_text(lower, "january") {
        Some(1)
    } else if same_text(lower, "february") {
        Some(2)
    } else if same_text(lower, "march") {
        Some(3)
    } else if same_text(lower, "april") {
        Some(4)
    } else if same_text(lower, "may") {
        Some(5)
    } else if same_text(lower, "june") {
        Some(6)
    } else if same_text(lower, "july") {
        Some(7)
    } else if same_text(lower, "august") {
        Some(8)
    } else if same_text(lower, "september") {
        Some(9)
    } else if same_text(lower, "october") {
        Some(10)
    } else if same_text(lower, "november") {
        Some(11)
    } else if same_text(lower, "december") {
        Some(12)
    } else {
        None
    }
}

/// The month number of an English month name, whatever its case.
pub fn month_name_to_number(month: &str) -> (r: Option<u32>)
    ensures
        option_u32_as_int(r) == month_number(lowercase(month@)),
{
    let lower = lowercased(month);
    month_number_of(lower.as_str())
}

/// The day of the conference year named by a month name and a day number.
pub fn resolve_date(month: &str, day: &str) -> (r: Option<ConferenceDate>)
    ensures
        date_view(r) == named_day(month@, day@),
        r matches Some(date) ==> date@.is_valid(),
{
    let month_number = match month_name_to_number(month) {
        Some(m) => m,
        None => {
            return None;
        },
    };
    let day_number = match parse_u32(day) {
        Some(d) => d,
        None => {
            return None;
        },
    };
    ConferenceDate::from_ymd_opt(VIVATECH_YEAR, month_number, day_number)
}

/// Group `i` of a match, `None` where the match has no such group.
fn group_text(captures: &Vec<Option<String>>, i: usize) -> (r: Option<&String>)
    ensures
        r.deep_view() == group(captures.deep_view(), i as int),
{
    if i < captures.len() {
        captures[i].as_ref()
    } else {
        None
    }
}

/// The date of a match of the month-then-day pattern, given its groups.
pub fn extract_month_day_date(captures: &Vec<Option<String>>) -> (r: Option<ConferenceDate>)
    ensures
        date_view(r) == month_day_date(captures.deep_view()),
        r matches Some(date) ==> date@.is_valid(),
{
    match (group_text(captures, 1), group_text(captures, 2)) {
        (Some(month), Some(day)) => resolve_date(month.as_str(), day.as_str()),
        _ => None,
    }
}

/// The date of a match of the day-then-month pattern, given its groups.
pub fn extract_day_month_date(captures: &Vec<Option<String>>) -> (r: Option<ConferenceDate>)
    ensures
        date_view(r) == day_month_date(captures.deep_view()),
        r matches Some(date) ==> date@.is_valid(),
{
    match (group_text(captures, 1), group_text(captures, 2)) {
        (Some(day), Some(month)) => resolve_date(month.as_str(), day.as_str()),
        _ => None,
    }
}

/// The date that `text` mentions, if any.
pub fn extract_date_from_text(text: &str) -> (r: Option<ConferenceDate>)
    ensures
        date_view(r) == date_in_text(text@),
        r matches Some(date) ==> date@.is_valid(),
{
    if let Some(captures) = first_captures(MONTH_DAY_PATTERN, text) {
        if let Some(date) = extract_month_day_date(&captures) {
            return Some(date);
        }
    }
    if let Some(captures) = first_captures(DAY_MONTH_PATTERN, text) {
        if let Some(date) = extract_day_month_date(&captures) {
            return Some(date);
        }
    }
    None
}

/// The twelve month names in small letters are what their spelling in the
/// patterns becomes in lower case, and they differ from each other.
proof fn lemma_small_month_names()
    ensures
        ascii_lowercase("January"@) == "january"@,
        ascii_lowercase("February"@) == "february"@,
        ascii_lowercase("March"@) == "march"@,
        ascii_lowercase("April"@) == "april"@,
        ascii_lowercase("May"@) == "may"@,
        ascii_lowercase("June"@) == "june"@,
        ascii_lowercase("July"@) == "july"@,
        ascii_lowercase("August"@) == "august"@,
        ascii_lowercase("September"@) == "september"@,
        ascii_lowercase("October"@) == "october"@,
        ascii_lowercase("November"@) == "november"@,
        ascii_lowercase("December"@) == "december"@,
        forall|m: int| 1 <= m <= 12 ==> is_ascii_chars(#[trigger] month_name(m)),
        forall|m: int|
            1 <= m <= 12 ==> month_number(ascii_lowercase(#[trigger] month_name(m))) == Some(m),
{
    reveal_strlit("January");
    reveal_strlit("February");
    reveal_strlit("March");
    reveal_strlit("April");
    reveal_strlit("May");
    reveal_strlit("June");
    reveal_strlit("July");
    reveal_strlit("August");
    reveal_strlit("September");
    reveal_strlit("October");
    reveal_strlit("November");
    reveal_strlit("December");
    reveal_strlit("january");
    reveal_strlit("february");
    reveal_strlit("march");
    reveal_strlit("april");
    reveal_strlit("may");
    reveal_strlit("june");
    reveal_strlit("july");
    reveal_strlit("august");
    reveal_strlit("september");
    reveal_strlit("october");
    reveal_strlit("november");
    reveal_strlit("december");
    assert(ascii_lowercase("January"@) =~= "january"@);
    assert(ascii_lowercase("February"@) =~= "february"@);
    assert(ascii_lowercase("March"@) =~= "march"@);
    assert(ascii_lowercase("April"@) =~= "april"@);
    assert(ascii_lowercase("May"@) =~= "may"@);
    assert(ascii_lowercase("June"@) =~= "june"@);
    assert(ascii_lowercase("July"@) =~= "july"@);
    assert(ascii_lowercase("August"@) =~= "august"@);
    assert(ascii_lowercase("September"@) =~= "september"@);
    assert(ascii_lowercase("October"@) =~= "october"@);
    assert(ascii_lowercase("November"@) =~= "november"@);
    assert(ascii_lowercase("December"@) =~= "december"@);
    assert("january"@.len() == 7 && "january"@[0] == 'j' && "january"@[2] == 'n');
    assert("february"@.len() == 8 && "february"@[0] == 'f' && "february"@[2] == 'b');
    assert("march"@.len() == 5 && "march"@[0] == 'm' && "march"@[2] == 'r');
    assert("april"@.len() == 5 && "april"@[0] == 'a' && "april"@[2] == 'r');
    assert("may"@.len() == 3 && "may"@[0] == 'm' && "may"@[2] == 'y');
    assert("june"@.len() == 4 && "june"@[0] == 'j' && "june"@[2] == 'n');
    assert("july"@.len() == 4 && "july"@[0] == 'j' && "july"@[2] == 'l');
    assert("august"@.len() == 6 && "august"@[0] == 'a' && "august"@[2] == 'g');
    assert("september"@.len() == 9 && "september"@[0] == 's' && "september"@[2] == 'p');
    assert("october"@.len() == 7 && "october"@[0] == 'o' && "october"@[2] == 't');
    assert("november"@.len() == 8 && "november"@[0] == 'n' && "november"@[2] == 'v');
    assert("december"@.len() == 8 && "december"@[0] == 'd' && "december"@[2] == 'c');
}

/// Each month name, as the patterns spell it, has the number of its month.
pub proof fn lemma_month_name_number(m: int)
    requires
        1 <= m <= 12,
    ensures
        month_number(lowercase(month_name(m))) == Some(m),
{
    lemma_small_month_names();
    assert(is_ascii_chars(month_name(m)));
}

/// The lookup covers exactly the twelve month names: an ASCII word has the
/// number of a month if it is that month's name but for the case of its
/// letters, and has no number if it is no month's name.
pub proof fn law_month_lookup_is_exact(word: Seq<char>, m: int)
    requires
        is_ascii_chars(word),
        1 <= m <= 12,
    ensures
        month_number(lowercase(word)) == Some(m) <==> ascii_lowercase(word) == ascii_lowercase(
            month_name(m),
        ),
        month_number(lowercase(word)) matches Some(n) ==> 1 <= n <= 12,
{
    lemma_small_month_names();
    assert(month_number(ascii_lowercase(month_name(m))) == Some(m));
}

/// Every date found in a text is a day of the conference year that exists.
pub proof fn law_dates_are_in_conference_year(text: Seq<char>)
    ensures
        date_in_text(text) matches Some(day) ==> day.year == VIVATECH_YEAR && day.is_valid(),
{
}

/// Month names are looked up without regard to case: two ASCII spellings
/// that differ only in the case of their letters name the same month, or
/// both name none.
pub proof fn law_month_lookup_ignores_case(a: Seq<char>, b: Seq<char>)
    requires
        is_ascii_chars(a),
        is_ascii_chars(b),
        ascii_lowercase(a) == ascii_lowercase(b),
    ensures
        month_number(lowercase(a)) == month_number(lowercase(b)),
{
}

/// A text in which the first match of the month-then-day pattern holds a
/// month name and a day that exists in that month of the conference year
/// mentions that day.
pub proof fn law_month_day_resolves(text: Seq<char>, month: int, day_text: Seq<char>, day: int)
    requires
        regex_captures(MONTH_DAY_PATTERN@, text) matches Some(groups) && group(groups, 1) == Some(
            month_name(month),
        ) && group(groups, 2) == Some(day_text),
        1 <= month <= 12,
        parsed_unsigned(day_text, u32::MAX as int) == Some(day),
        calendar_day(VIVATECH_YEAR as int, month, day).is_valid(),
    ensures
        date_in_text(text) == Some(calendar_day(VIVATECH_YEAR as int, month, day)),
{
    lemma_month_name_number(month);
}

/// A text in which the first match of the month-then-day pattern is
/// "June" and "12" mentions the twelfth of June of the conference year.
pub proof fn law_june_12_resolves(text: Seq<char>)
    requires
        regex_captures(MONTH_DAY_PATTERN@, text) matches Some(groups) && group(groups, 1) == Some(
            "June"@,
        ) && group(groups, 2) == Some("12"@),
    ensures
        date_in_text(text) == Some(calendar_day(2025, 6, 12)),
{
    lemma_twelve();
    law_month_day_resolves(text, 6, "12"@, 12);
}

/// The text "12" writes the number twelve.
proof fn lemma_twelve()
    ensures
        parsed_unsigned("12"@, u32::MAX as int) == Some(12int),
{
    reveal_strlit("12");
    let s = "12"@;
    assert(s.len() == 2);
    assert(without_plus(s) == s);
    assert(s.drop_last() =~= seq!['1']);
    assert(seq!['1'].drop_last() =~= Seq::<char>::empty());
    reveal_with_fuel(digits_value, 3);
    assert(digits_value(s) == 12);
}

/// The order of month and day in a mention does not matter: a match of the
/// day-then-month pattern names the same date as a match of the
/// month-then-day pattern with the same month and day.
pub proof fn law_pattern_order_independent(
    month_first: Seq<Option<Seq<char>>>,
    day_first: Seq<Option<Seq<char>>>,
)
    requires
        group(month_first, 1) == group(day_first, 2),
        group(month_first, 2) == group(day_first, 1),
    ensures
        month_day_date(month_first) == day_month_date(day_first),
{
}

/// A text in which the month-then-day pattern yields no date and the first
/// match of the day-then-month pattern is "12" and "June" mentions the
/// twelfth of June of the conference year, the date of "June 12".
pub proof fn law_12th_june_resolves(text: Seq<char>)
    requires
        month_day_mention(text) is None,
        regex_captures(DAY_MONTH_PATTERN@, text) matches Some(groups) && group(groups, 1) == Some(
            "12"@,
        ) && group(groups, 2) == Some("June"@),
    ensures
        date_in_text(text) == Some(calendar_day(2025, 6, 12)),
{
    lemma_twelve();
    lemma_month_name_number(6);
}

/// A text in which neither pattern finds a match mentions no date.
pub proof fn law_no_match_no_date(text: Seq<char>)
    requires
        regex_captures(MONTH_DAY_PATTERN@, text) is None,
        regex_captures(DAY_MONTH_PATTERN@, text) is None,
    ensures
        date_in_text(text) is None,
{
}

} // verus!
