//! Records exchanged with the conference search service and with callers.

use crate::calendar::{calendar_day, parsed_day, CalendarDay, ConferenceDate, ISO_DATE_FORMAT};
use vstd::prelude::*;

verus! {

/// Year of the conference; date mentions in text are resolved within it.
pub const VIVATECH_YEAR: i32 = 2025;

/// Month of the built-in reference date.
pub const CURRENT_MONTH: u32 = 6;

/// Day of the built-in reference date.
pub const CURRENT_DAY: u32 = 11;

/// How soon an event calls for action.
#[derive(Debug, Clone, Copy, PartialEq, Eq, Structural)]
pub enum ActionUrgency {
    Immediate,
    Soon,
    Normal,
}

/// One ranked text snippet of the search service.
#[derive(Debug, Clone)]
pub struct VivatechSource {
    pub id: String,
    pub source_table: String,
    /// Bit pattern of the single-precision relevance score.
    pub score_bits: u32,
    pub text_chunk: String,
}

/// What the search service says about a search.
#[derive(Debug)]
pub struct VivatechMetadata {
    pub search_mode: String,
    pub sources_found: u32,
}

/// The answer of the search service to one query.
#[derive(Debug)]
pub struct VivatechQueryResponse {
    pub answer: String,
    pub sources: Vec<VivatechSource>,
    pub metadata: VivatechMetadata,
}

/// A request for a plan.
#[derive(Debug)]
pub struct GeneratePlanRequest {
    pub objective: String,
}

/// The built-in reference date.
pub open spec fn default_reference_day() -> CalendarDay {
    calendar_day(VIVATECH_YEAR as int, CURRENT_MONTH as int, CURRENT_DAY as int)
}

/// The reference date under a configured value: the date that the value
/// writes as year, month and day, and the built-in date where there is no
/// value or it does not parse.
pub open spec fn reference_day(configured: Option<Seq<char>>) -> CalendarDay {
    match configured {
        Some(text) => match parsed_day(text, ISO_DATE_FORMAT@) {
            Some(day) => day,
            None => default_reference_day(),
        },
        None => default_reference_day(),
    }
}

/// The built-in reference date.
pub fn default_conference_date() -> (r: ConferenceDate)
    ensures
        r@ == default_reference_day(),
        r@.is_valid(),
{
    ConferenceDate::from_valid_ymd(VIVATECH_YEAR, CURRENT_MONTH, CURRENT_DAY)
}

/// The parsed reference date, or the built-in one where there is none.
pub fn reference_date_or_default(parsed: Option<ConferenceDate>) -> (r: ConferenceDate)
    ensures
        r@ == match parsed {
            Some(date) => date@,
            None => default_reference_day(),
        },
        r@.is_valid(),
{
    proof {
        if let Some(date) = parsed {
            use_type_invariant(&date);
        }
    }
    match parsed {
        Some(date) => date,
        None => default_conference_date(),
    }
}

/// The reference date for all urgency computations, given the configured
/// override if there is one.
pub fn get_current_conference_date(configured: Option<&str>) -> (r: ConferenceDate)
    ensures
        r@ == reference_day(
            match configured {
                Some(text) => Some(text@),
                None => None,
            },
        ),
        r@.is_valid(),
{
    match configured {
        Some(text) => reference_date_or_default(ConferenceDate::parse_iso(text)),
        None => default_conference_date(),
    }
}

} // verus!
