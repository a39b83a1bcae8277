//! The two tools that an agent can call: a search of the conference
//! database, and an assessment of how soon events happen.

use crate::calendar::{CalendarDay, ConferenceDate};
use crate::dates::date_in_text;
use crate::models::{ActionUrgency, VivatechSource};
use crate::schema::{
    is_number_property, is_text_property, name_list, names_are, ParameterSchema, Property,
    ToolDefinition,
};
use crate::urgency::{analyze_event_urgency, days_until, description_of, urgency_of};
use vstd::prelude::*;
use vstd::string::*;

verus! {

/// Name of the search tool.
pub const QUERY_TOOL_NAME: &'static str = "query_vivatech_api";

/// What the search tool does.
pub const QUERY_TOOL_DESCRIPTION: &'static str =
    "Searches the Vivatech conference database for sessions and partners related to a query.";

/// What the query of a search is.
pub const QUERY_FIELD_DESCRIPTION: &'static str =
    "The search term to find relevant Vivatech sessions or partners";

/// Name of the assessment tool.
pub const ASSESS_TOOL_NAME: &'static str = "assess_event_timeliness";

/// What the assessment tool does.
pub const ASSESS_TOOL_DESCRIPTION: &'static str =
    "Analyzes a list of Vivatech events to determine their urgency based on the current date (June 11, 2025). Use this to prioritize actions.";

/// What the events of an assessment are.
pub const EVENTS_FIELD_DESCRIPTION: &'static str = "List of events to assess for timeliness";

/// What the identifier of an event is.
pub const ID_FIELD_DESCRIPTION: &'static str = "Unique identifier of the event";

/// What the text of an event is.
pub const TEXT_CHUNK_FIELD_DESCRIPTION: &'static str = "Text content describing the event";

/// What the source table of an event is.
pub const SOURCE_TABLE_FIELD_DESCRIPTION: &'static str =
    "Type of source (e.g., sessions, partners)";

/// What the score of an event is.
pub const SCORE_FIELD_DESCRIPTION: &'static str = "Relevance score";

/// What stands before the message in the text of a search failure.
pub const API_ERROR_PREFIX: &'static str = "Vivatech API Error: ";

/// The text of a failure to find a date.
pub const DATE_PARSE_ERROR_TEXT: &'static str = "Failed to parse date from event text";

/// Input of the search tool.
#[derive(Debug)]
pub struct QueryVivatechArgs {
    pub query: String,
}

/// The ways a search can fail.
#[derive(Debug, Clone, Copy, PartialEq, Eq, Structural)]
pub enum ApiErrorKind {
    /// The address of the search service is not configured.
    Configuration,
    /// The request could not be sent, or no response came.
    Transport,
    /// The service answered with a status outside the success range; a
    /// transport failure of its own kind.
    Status,
    /// The body of the response does not have the expected shape.
    Deserialization,
}

/// A failed search.
#[derive(Debug)]
pub struct VivatechApiError {
    pub kind: ApiErrorKind,
    pub message: String,
}

impl VivatechApiError {
    /// The failure as one line of text.
    pub fn to_text(&self) -> (r: String)
        ensures
            r@ == API_ERROR_PREFIX@ + self.message@,
    {
        let mut text = API_ERROR_PREFIX.to_owned();
        text.append(self.message.as_str());
        text
    }
}

/// The search tool.
#[derive(Debug, Clone, Copy)]
pub struct QueryVivatechAPI;

/// The parameters of the search tool: a record with one required string,
/// the query.
pub open spec fn is_query_parameters(schema: ParameterSchema) -> bool {
    &&& schema matches ParameterSchema::Record { properties, required }
    &&& names_are(required, seq!["query"@])
    &&& properties@.len() == 1
    &&& is_text_property(properties@[0], "query"@, QUERY_FIELD_DESCRIPTION@)
}

impl QueryVivatechAPI {
    /// What an agent is told about the search tool.
    pub fn definition(&self) -> (r: ToolDefinition)
        ensures
            r.name@ == QUERY_TOOL_NAME@,
            r.description@ == QUERY_TOOL_DESCRIPTION@,
            is_query_parameters(r.parameters),
    {
        let mut properties: Vec<Property> = Vec::new();
        properties.push(Property::text("query", QUERY_FIELD_DESCRIPTION));
        let required = name_list(&["query"]);
        assert(required.deep_view() =~= seq!["query"@]);
        ToolDefinition {
            name: QUERY_TOOL_NAME.to_owned(),
            description: QUERY_TOOL_DESCRIPTION.to_owned(),
            parameters: ParameterSchema::Record { properties, required },
        }
    }
}

/// Input of the assessment tool.
#[derive(Debug)]
pub struct AssessTimelinessArgs {
    pub events: Vec<VivatechSource>,
}

/// The assessment of one event.
#[derive(Debug)]
pub struct TimelinessResult {
    pub source_id: String,
    pub urgency: ActionUrgency,
    pub description: String,
}

/// The failure of an assessment. No assessment fails: an event without a
/// date is of normal urgency.
#[derive(Debug, Clone, Copy)]
pub struct DateParseError;

impl DateParseError {
    /// The failure as one line of text.
    pub fn to_text(&self) -> (r: String)
        ensures
            r@ == DATE_PARSE_ERROR_TEXT@,
    {
        DATE_PARSE_ERROR_TEXT.to_owned()
    }
}

/// The assessment tool.
#[derive(Debug, Clone, Copy)]
pub struct AssessTimeliness;

/// The shape of one event: identifier and text are required, source table
/// and score are not.
pub open spec fn is_event_schema(schema: ParameterSchema) -> bool {
    &&& schema matches ParameterSchema::Record { properties, required }
    &&& names_are(required, seq!["id"@, "text_chunk"@])
    &&& properties@.len() == 4
    &&& is_text_property(properties@[0], "id"@, ID_FIELD_DESCRIPTION@)
    &&& is_text_property(properties@[1], "text_chunk"@, TEXT_CHUNK_FIELD_DESCRIPTION@)
    &&& is_text_property(properties@[2], "source_table"@, SOURCE_TABLE_FIELD_DESCRIPTION@)
    &&& is_number_property(properties@[3], "score"@, SCORE_FIELD_DESCRIPTION@)
}

/// The parameters of the assessment tool: a record with one required list,
/// the events.
pub open spec fn is_assess_parameters(schema: ParameterSchema) -> bool {
    &&& schema matches ParameterSchema::Record { properties, required }
    &&& names_are(required, seq!["events"@])
    &&& properties@.len() == 1
    &&& properties@[0].name@ == "events"@
    &&& properties@[0].schema matches ParameterSchema::List { description, items }
    &&& description@ == EVENTS_FIELD_DESCRIPTION@
    &&& is_event_schema(*items)
}

/// `result` assesses `event` as seen from `today`.
pub open spec fn is_assessment_of(
    result: TimelinessResult,
    event: VivatechSource,
    today: CalendarDay,
) -> bool {
    &&& result.source_id@ == event.id@
    &&& result.urgency == urgency_of(days_until(date_in_text(event.text_chunk@), today))
    &&& result.description@ == description_of(
        days_until(date_in_text(event.text_chunk@), today),
    )
}

impl AssessTimeliness {
    /// What an agent is told about the assessment tool.
    pub fn definition(&self) -> (r: ToolDefinition)
        ensures
            r.name@ == ASSESS_TOOL_NAME@,
            r.description@ == ASSESS_TOOL_DESCRIPTION@,
            is_assess_parameters(r.parameters),
    {
        let mut event_properties: Vec<Property> = Vec::new();
        event_properties.push(Property::text("id", ID_FIELD_DESCRIPTION));
        event_properties.push(Property::text("text_chunk", TEXT_CHUNK_FIELD_DESCRIPTION));
        event_properties.push(Property::text("source_table", SOURCE_TABLE_FIELD_DESCRIPTION));
        event_properties.push(Property::number("score", SCORE_FIELD_DESCRIPTION));
        let event_required = name_list(&["id", "text_chunk"]);
        assert(event_required.deep_view() =~= seq!["id"@, "text_chunk"@]);
        let event = ParameterSchema::Record {
            properties: event_properties,
            required: event_required,
        };
        let mut properties: Vec<Property> = Vec::new();
        properties.push(Property::list("events", EVENTS_FIELD_DESCRIPTION, event));
        let required = name_list(&["events"]);
        assert(required.deep_view() =~= seq!["events"@]);
        ToolDefinition {
            name: ASSESS_TOOL_NAME.to_owned(),
            description: ASSESS_TOOL_DESCRIPTION.to_owned(),
            parameters: ParameterSchema::Record { properties, required },
        }
    }

    /// Assesses each event, in the order given, as seen from `current_date`.
    pub fn call(&self, args: AssessTimelinessArgs, current_date: ConferenceDate) -> (r: Result<
        Vec<TimelinessResult>,
        DateParseError,
    >)
        ensures
            r matches Ok(results) && results@.len() == args.events@.len() && forall|i: int|
                0 <= i < results@.len() ==> is_assessment_of(
                    #[trigger] results@[i],
                    args.events@[i],
                    current_date@,
                ),
    {
        let mut results: Vec<TimelinessResult> = Vec::new();
        let mut i: usize = 0;
        while i < args.events.len()
            invariant
                i <= args.events@.len(),
                results@.len() == i,
                forall|j: int|
                    0 <= j < i ==> is_assessment_of(
                        #[trigger] results@[j],
                        args.events@[j],
                        current_date@,
                    ),
            decreases args.events@.len() - i,
        {
            let event = &args.events[i];
            let (urgency, description) = analyze_event_urgency(
                event.text_chunk.as_str(),
                current_date,
            );
            results.push(TimelinessResult { source_id: event.id.clone(), urgency, description });
            i += 1;
        }
        Ok(results)
    }
}

} // verus!
