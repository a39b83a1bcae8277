//! How urgent an event is, from the date its text mentions and the
//! reference date.

use crate::calendar::{
    date_view, lemma_day_number_order, lemma_next_day_number, CalendarDay, ConferenceDate, MAX_YEAR,
};
use crate::dates::{
    date_in_text, extract_date_from_text, regex_captures, DAY_MONTH_PATTERN, MONTH_DAY_PATTERN,
};
use crate::models::ActionUrgency;
use crate::text::{append_decimal, decimal_text};
use vstd::prelude::*;
use vstd::string::*;

verus! {

/// Description of an event on the reference date.
pub const TODAY_DESCRIPTION: &'static str = "happening TODAY — immediate action required";

/// Description of an event on the day after the reference date.
pub const TOMORROW_DESCRIPTION: &'static str = "happening TOMORROW — plan accordingly";

/// Description of an event before the reference date.
pub const PASSED_DESCRIPTION: &'static str = "already passed";

/// Description of an event whose text mentions no date.
pub const NO_DATE_DESCRIPTION: &'static str = "no specific date found — normal priority";

/// What stands before the day count in the description of a later event.
pub const DAYS_PREFIX: &'static str = "in ";

/// What stands after the day count in the description of a later event.
pub const DAYS_SUFFIX: &'static str = " days — normal priority";

/// Days from the reference date to the event, where the event has a date.
pub open spec fn days_until(event: Option<CalendarDay>, reference: CalendarDay) -> Option<int> {
    match event {
        Some(day) => Some(day.day_number() - reference.day_number()),
        None => None,
    }
}

/// Urgency of an event that is `days` days away, or has no date.
pub open spec fn urgency_of(days: Option<int>) -> ActionUrgency {
    match days {
        Some(d) => if d == 0 {
            ActionUrgency::Immediate
        } else if d == 1 {
            ActionUrgency::Soon
        } else {
            ActionUrgency::Normal
        },
        None => ActionUrgency::Normal,
    }
}

/// Description of an event that is `days` days away, or has no date.
pub open spec fn description_of(days: Option<int>) -> Seq<char> {
    match days {
        Some(d) => if d == 0 {
            TODAY_DESCRIPTION@
        } else if d == 1 {
            TOMORROW_DESCRIPTION@
        } else if d > 1 {
            DAYS_PREFIX@ + decimal_text(d as nat) + DAYS_SUFFIX@
        } else {
            PASSED_DESCRIPTION@
        },
        None => NO_DATE_DESCRIPTION@,
    }
}

/// A day count, if any, as a mathematical integer.
pub open spec fn option_i64_as_int(v: Option<i64>) -> Option<int> {
    match v {
        Some(n) => Some(n as int),
        None => None,
    }
}

/// Urgency and description for a day count, `None` where no date was found.
pub fn classify_days(days: Option<i64>) -> (r: (ActionUrgency, String))
    ensures
        r.0 == urgency_of(option_i64_as_int(days)),
        r.1@ == description_of(option_i64_as_int(days)),
{
    match days {
        Some(d) => {
            if d == 0 {
                (ActionUrgency::Immediate, TODAY_DESCRIPTION.to_owned())
            } else if d == 1 {
                (ActionUrgency::Soon, TOMORROW_DESCRIPTION.to_owned())
            } else if d > 0 {
                let mut description = DAYS_PREFIX.to_owned();
                append_decimal(&mut description, d as u64);
                description.append(DAYS_SUFFIX);
                (ActionUrgency::Normal, description)
            } else {
                (ActionUrgency::Normal, PASSED_DESCRIPTION.to_owned())
            }
        },
        None => (ActionUrgency::Normal, NO_DATE_DESCRIPTION.to_owned()),
    }
}

/// Urgency and description of an event with this date, seen from
/// `current_date`.
pub fn assess_date(event_date: Option<ConferenceDate>, current_date: ConferenceDate) -> (r: (
    ActionUrgency,
    String,
))
    ensures
        r.0 == urgency_of(days_until(date_view(event_date), current_date@)),
        r.1@ == description_of(days_until(date_view(event_date), current_date@)),
{
    match event_date {
        Some(date) => classify_days(Some(date.days_since(&current_date))),
        None => classify_days(None),
    }
}

/// Urgency and description of an event from the date its text mentions.
pub fn analyze_event_urgency(text: &str, current_date: ConferenceDate) -> (r: (
    ActionUrgency,
    String,
))
    ensures
        r.0 == urgency_of(days_until(date_in_text(text@), current_date@)),
        r.1@ == description_of(days_until(date_in_text(text@), current_date@)),
{
    assess_date(extract_date_from_text(text), current_date)
}

/// Urgency follows the calendar. An event on the reference date is
/// immediate, one on the day after it is soon, a later one is normal and
/// described with the number of days until it, and an earlier one is normal
/// and described as passed.
pub proof fn law_urgency_by_date(event: CalendarDay, reference: CalendarDay)
    requires
        event.is_valid(),
        reference.is_valid(),
    ensures
        event == reference ==> urgency_of(days_until(Some(event), reference))
            == ActionUrgency::Immediate && description_of(days_until(Some(event), reference))
            == TODAY_DESCRIPTION@,
        event == reference.next() ==> urgency_of(days_until(Some(event), reference))
            == ActionUrgency::Soon && description_of(days_until(Some(event), reference))
            == TOMORROW_DESCRIPTION@,
        reference.next().is_before(event) ==> urgency_of(days_until(Some(event), reference))
            == ActionUrgency::Normal && event.day_number() - reference.day_number() > 1
            && description_of(days_until(Some(event), reference)) == DAYS_PREFIX@ + decimal_text(
            (event.day_number() - reference.day_number()) as nat,
        ) + DAYS_SUFFIX@,
        event.is_before(reference) ==> urgency_of(days_until(Some(event), reference))
            == ActionUrgency::Normal && description_of(days_until(Some(event), reference))
            == PASSED_DESCRIPTION@,
{
    lemma_next_day_number(reference);
    lemma_day_number_order(event, reference);
    if reference.next().is_before(event) {
        let next = reference.next();
        assert(next.year <= event.year <= MAX_YEAR);
        assert(next.is_valid());
        lemma_day_number_order(next, event);
        assert(event.day_number() - reference.day_number() > 1);
    }
}

/// An event without a date is of normal urgency, whatever the reference
/// date.
pub proof fn law_no_date_is_normal(reference: CalendarDay)
    ensures
        urgency_of(days_until(None, reference)) == ActionUrgency::Normal,
        description_of(days_until(None, reference)) == NO_DATE_DESCRIPTION@,
{
}

/// A text in which neither pattern finds a match is of normal urgency and
/// described as having no date.
pub proof fn law_no_match_is_normal(text: Seq<char>, reference: CalendarDay)
    requires
        regex_captures(MONTH_DAY_PATTERN@, text) is None,
        regex_captures(DAY_MONTH_PATTERN@, text) is None,
    ensures
        date_in_text(text) is None,
        urgency_of(days_until(date_in_text(text), reference)) == ActionUrgency::Normal,
        description_of(days_until(date_in_text(text), reference)) == NO_DATE_DESCRIPTION@,
{
}

} // verus!
