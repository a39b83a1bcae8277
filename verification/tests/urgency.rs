use vivatech_planner::calendar::ConferenceDate;
use vivatech_planner::models::{
    default_conference_date, get_current_conference_date, ActionUrgency, VivatechSource,
};
use vivatech_planner::tools::{AssessTimeliness, AssessTimelinessArgs, DateParseError};
use vivatech_planner::urgency::{
    analyze_event_urgency, assess_date, classify_days, DAYS_PREFIX, DAYS_SUFFIX,
    NO_DATE_DESCRIPTION, PASSED_DESCRIPTION, TODAY_DESCRIPTION, TOMORROW_DESCRIPTION,
};

fn date(year: i32, month: u32, day: u32) -> ConferenceDate {
    ConferenceDate::from_ymd_opt(year, month, day).unwrap()
}

fn june(day: u32) -> ConferenceDate {
    date(2025, 6, day)
}

fn event(id: &str, text: &str) -> VivatechSource {
    VivatechSource {
        id: id.to_string(),
        source_table: String::from("sessions"),
        score_bits: 0.5f32.to_bits(),
        text_chunk: text.to_string(),
    }
}

#[test]
fn description_wording() {
    assert_eq!(TODAY_DESCRIPTION, "happening TODAY \u{2014} immediate action required");
    assert_eq!(TOMORROW_DESCRIPTION, "happening TOMORROW \u{2014} plan accordingly");
    assert_eq!(PASSED_DESCRIPTION, "already passed");
    assert_eq!(NO_DATE_DESCRIPTION, "no specific date found \u{2014} normal priority");
    assert_eq!(
        format!("{}5{}", DAYS_PREFIX, DAYS_SUFFIX),
        "in 5 days \u{2014} normal priority"
    );
}

#[test]
fn day_counts_are_classified() {
    assert_eq!(classify_days(Some(0)), (ActionUrgency::Immediate, TODAY_DESCRIPTION.to_string()));
    assert_eq!(classify_days(Some(1)), (ActionUrgency::Soon, TOMORROW_DESCRIPTION.to_string()));
    assert_eq!(
        classify_days(Some(2)),
        (ActionUrgency::Normal, String::from("in 2 days \u{2014} normal priority"))
    );
    assert_eq!(
        classify_days(Some(197)),
        (ActionUrgency::Normal, String::from("in 197 days \u{2014} normal priority"))
    );
    assert_eq!(classify_days(Some(-1)), (ActionUrgency::Normal, PASSED_DESCRIPTION.to_string()));
    assert_eq!(classify_days(Some(-400)), (ActionUrgency::Normal, PASSED_DESCRIPTION.to_string()));
    assert_eq!(classify_days(None), (ActionUrgency::Normal, NO_DATE_DESCRIPTION.to_string()));
}

#[test]
fn extreme_day_counts_are_classified() {
    assert_eq!(
        classify_days(Some(i64::MAX)),
        (ActionUrgency::Normal, String::from("in 9223372036854775807 days \u{2014} normal priority"))
    );
    assert_eq!(
        classify_days(Some(i64::MIN)),
        (ActionUrgency::Normal, PASSED_DESCRIPTION.to_string())
    );
}

#[test]
fn event_on_the_reference_date_is_immediate() {
    let (urgency, description) = assess_date(Some(june(11)), june(11));
    assert_eq!(urgency, ActionUrgency::Immediate);
    assert_eq!(description, TODAY_DESCRIPTION);
}

#[test]
fn event_on_the_next_day_is_soon() {
    let (urgency, description) = assess_date(Some(june(12)), june(11));
    assert_eq!(urgency, ActionUrgency::Soon);
    assert_eq!(description, TOMORROW_DESCRIPTION);
    let (urgency, _) = assess_date(Some(date(2025, 7, 1)), june(30));
    assert_eq!(urgency, ActionUrgency::Soon);
    let (urgency, _) = assess_date(Some(date(2025, 1, 1)), date(2024, 12, 31));
    assert_eq!(urgency, ActionUrgency::Soon);
    let (urgency, _) = assess_date(Some(date(2024, 3, 1)), date(2024, 2, 29));
    assert_eq!(urgency, ActionUrgency::Soon);
}

#[test]
fn later_event_is_normal_with_its_day_count() {
    let (urgency, description) = assess_date(Some(june(13)), june(11));
    assert_eq!(urgency, ActionUrgency::Normal);
    assert_eq!(description, "in 2 days \u{2014} normal priority");
    let (urgency, description) = assess_date(Some(date(2025, 12, 31)), date(2025, 1, 1));
    assert_eq!(urgency, ActionUrgency::Normal);
    assert_eq!(description, "in 364 days \u{2014} normal priority");
    let (_, description) = assess_date(Some(date(2025, 3, 1)), date(2024, 2, 28));
    assert_eq!(description, "in 367 days \u{2014} normal priority");
}

#[test]
fn earlier_event_has_passed() {
    let (urgency, description) = assess_date(Some(june(10)), june(11));
    assert_eq!(urgency, ActionUrgency::Normal);
    assert_eq!(description, PASSED_DESCRIPTION);
    let (urgency, description) = assess_date(Some(date(2025, 1, 1)), date(2030, 1, 1));
    assert_eq!(urgency, ActionUrgency::Normal);
    assert_eq!(description, PASSED_DESCRIPTION);
}

#[test]
fn event_without_date_is_normal() {
    let (urgency, description) = assess_date(None, june(11));
    assert_eq!(urgency, ActionUrgency::Normal);
    assert_eq!(description, NO_DATE_DESCRIPTION);
}

#[test]
fn keynote_on_june_12_is_soon() {
    let (urgency, description) = analyze_event_urgency("The keynote is on June 12", june(11));
    assert_eq!(urgency, ActionUrgency::Soon);
    assert_eq!(description, "happening TOMORROW \u{2014} plan accordingly");
    assert_eq!(june(12).days_since(&june(11)), 1);
}

#[test]
fn session_on_december_25_is_in_197_days() {
    let (urgency, description) = analyze_event_urgency("Session: December 25", june(11));
    assert_eq!(urgency, ActionUrgency::Normal);
    assert_eq!(description, "in 197 days \u{2014} normal priority");
}

#[test]
fn june_31_is_no_date() {
    let (urgency, description) = analyze_event_urgency("June 31", june(11));
    assert_eq!(urgency, ActionUrgency::Normal);
    assert_eq!(description, "no specific date found \u{2014} normal priority");
}

#[test]
fn text_without_date_is_normal() {
    let (urgency, description) = analyze_event_urgency("A talk about batteries", june(11));
    assert_eq!(urgency, ActionUrgency::Normal);
    assert_eq!(description, NO_DATE_DESCRIPTION);
    let (urgency, description) = analyze_event_urgency("", june(11));
    assert_eq!(urgency, ActionUrgency::Normal);
    assert_eq!(description, NO_DATE_DESCRIPTION);
}

#[test]
fn text_on_the_reference_date_is_immediate() {
    let (urgency, description) = analyze_event_urgency("Opening on June 11", june(11));
    assert_eq!(urgency, ActionUrgency::Immediate);
    assert_eq!(description, TODAY_DESCRIPTION);
    let (urgency, _) = analyze_event_urgency("Opening on 11th June", june(11));
    assert_eq!(urgency, ActionUrgency::Immediate);
}

#[test]
fn text_before_the_reference_date_has_passed() {
    let (urgency, description) = analyze_event_urgency("Workshop, 3 March", june(11));
    assert_eq!(urgency, ActionUrgency::Normal);
    assert_eq!(description, PASSED_DESCRIPTION);
}

#[test]
fn urgency_depends_on_the_reference_date() {
    let text = "Closing party on June 14";
    assert_eq!(analyze_event_urgency(text, june(14)).0, ActionUrgency::Immediate);
    assert_eq!(analyze_event_urgency(text, june(13)).0, ActionUrgency::Soon);
    assert_eq!(
        analyze_event_urgency(text, june(12)),
        (ActionUrgency::Normal, String::from("in 2 days \u{2014} normal priority"))
    );
    assert_eq!(
        analyze_event_urgency(text, june(15)),
        (ActionUrgency::Normal, PASSED_DESCRIPTION.to_string())
    );
    assert_eq!(
        analyze_event_urgency(text, date(2024, 6, 14)),
        (ActionUrgency::Normal, String::from("in 365 days \u{2014} normal priority"))
    );
}

#[test]
fn both_orders_have_the_same_urgency() {
    assert_eq!(
        analyze_event_urgency("12th June", june(11)),
        analyze_event_urgency("June 12", june(11))
    );
    assert_eq!(
        analyze_event_urgency("25 December", june(11)),
        analyze_event_urgency("December 25", june(11))
    );
}

#[test]
fn assessments_keep_the_order_and_the_ids() {
    let args = AssessTimelinessArgs {
        events: vec![
            event("a", "Demo on June 11"),
            event("b", "The keynote is on June 12"),
            event("c", "Session: December 25"),
            event("d", "Held on 2nd June"),
            event("e", "No day given"),
            event("f", "June 31"),
        ],
    };
    let results = AssessTimeliness.call(args, default_conference_date()).unwrap();
    let ids: Vec<&str> = results.iter().map(|r| r.source_id.as_str()).collect();
    assert_eq!(ids, vec!["a", "b", "c", "d", "e", "f"]);
    let urgencies: Vec<ActionUrgency> = results.iter().map(|r| r.urgency).collect();
    assert_eq!(
        urgencies,
        vec![
            ActionUrgency::Immediate,
            ActionUrgency::Soon,
            ActionUrgency::Normal,
            ActionUrgency::Normal,
            ActionUrgency::Normal,
            ActionUrgency::Normal,
        ]
    );
    let descriptions: Vec<&str> = results.iter().map(|r| r.description.as_str()).collect();
    assert_eq!(
        descriptions,
        vec![
            "happening TODAY \u{2014} immediate action required",
            "happening TOMORROW \u{2014} plan accordingly",
            "in 197 days \u{2014} normal priority",
            "already passed",
            "no specific date found \u{2014} normal priority",
            "no specific date found \u{2014} normal priority",
        ]
    );
}

#[test]
fn no_events_give_no_assessments() {
    let results = AssessTimeliness
        .call(AssessTimelinessArgs { events: vec![] }, default_conference_date())
        .unwrap();
    assert!(results.is_empty());
}

#[test]
fn events_with_equal_ids_are_each_assessed() {
    let args = AssessTimelinessArgs {
        events: vec![event("x", "June 12"), event("x", "June 11"), event("", "")],
    };
    let results = AssessTimeliness.call(args, june(11)).unwrap();
    assert_eq!(results.len(), 3);
    assert_eq!(results[0].source_id, "x");
    assert_eq!(results[0].urgency, ActionUrgency::Soon);
    assert_eq!(results[1].source_id, "x");
    assert_eq!(results[1].urgency, ActionUrgency::Immediate);
    assert_eq!(results[2].source_id, "");
    assert_eq!(results[2].urgency, ActionUrgency::Normal);
}

#[test]
fn assessment_uses_the_configured_reference_date() {
    let args = AssessTimelinessArgs { events: vec![event("a", "The keynote is on June 12")] };
    let results = AssessTimeliness
        .call(args, get_current_conference_date(Some("2025-06-12")))
        .unwrap();
    assert_eq!(results[0].urgency, ActionUrgency::Immediate);
}

#[test]
fn assessment_ignores_score_and_source_table() {
    let mut first = event("a", "June 12");
    first.score_bits = 0.99f32.to_bits();
    first.source_table = String::from("partners");
    let mut second = event("a", "June 12");
    second.score_bits = 0.0f32.to_bits();
    second.source_table = String::new();
    let results = AssessTimeliness
        .call(AssessTimelinessArgs { events: vec![first, second] }, june(11))
        .unwrap();
    assert_eq!(results[0].urgency, results[1].urgency);
    assert_eq!(results[0].description, results[1].description);
}

#[test]
fn date_parse_error_text() {
    assert_eq!(DateParseError.to_text(), "Failed to parse date from event text");
}
