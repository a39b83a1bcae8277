//! The decisions of the planning endpoint: which agent answers an objective,
//! what the response says when something fails, and which configuration the
//! service cannot start without.

use crate::models::GeneratePlanRequest;
use vstd::prelude::*;
use vstd::string::*;

verus! {

/// Configuration key: the key of the language-model service.
pub const OPENAI_API_KEY: &'static str = "OPENAI_API_KEY";

/// Configuration key: the address of the search service.
pub const VIVATECH_API_URL: &'static str = "VIVATECH_API_URL";

/// Configuration key: the time limit of a search, in seconds.
pub const API_TIMEOUT_SECONDS: &'static str = "API_TIMEOUT_SECONDS";

/// Configuration key: the reference date, as year, month and day.
pub const CONFERENCE_DATE: &'static str = "CONFERENCE_DATE";

/// What the planning agent is told before the objective.
pub const AGENT_INSTRUCTIONS: &'static str =
    "You are a helpful assistant for Vivatech 2025 conference planning. Current date: June 11, 2025.\n\nWhen asked about sessions or events:\n1. Use the query_vivatech_api tool to search for relevant information\n2. Format the results in a clear, organized way for the user\n3. If sessions have dates, note which ones are happening soon";

/// What the agent without tools is told before the objective.
pub const SIMPLE_AGENT_INSTRUCTIONS: &'static str = "You are a helpful assistant.";

/// Most tokens the planning agent may answer with.
pub const MAX_TOKENS: u64 = 2048;

/// An objective that holds these words is answered without tools.
pub const SIMPLE_TEST_MARKER: &'static str = "test simple";

/// What a start without the key of the language model reports.
pub const MISSING_OPENAI_KEY_MESSAGE: &'static str =
    "Missing required configuration: OPENAI_API_KEY. Please set it in Secrets.toml";

/// What a start without the address of the search service reports.
pub const MISSING_API_URL_MESSAGE: &'static str =
    "Missing required configuration: VIVATECH_API_URL. Please set it in Secrets.toml";

/// What a request reports when the key of the language model is gone.
pub const OPENAI_KEY_NOT_FOUND_MESSAGE: &'static str = "OPENAI_API_KEY not found in environment";

/// What stands before the detail where the client cannot be set up.
pub const CLIENT_FAILURE_PREFIX: &'static str = "Error: Failed to initialize AI service - ";

/// What stands before the detail where the agent without tools fails.
pub const SIMPLE_FAILURE_PREFIX: &'static str = "Error: Simple agent failed - ";

/// What stands before the detail where the planning agent fails.
pub const PLAN_FAILURE_PREFIX: &'static str = "Error: Failed to generate plan - ";

/// `needle` occurs in `haystack`.
pub open spec fn occurs_in(needle: Seq<char>, haystack: Seq<char>) -> bool {
    exists|i: int|
        0 <= i && i + needle.len() <= haystack.len() && #[trigger] haystack.subrange(
            i,
            i + needle.len(),
        ) == needle
}

/// Calls `str::contains` with a string as the pattern.
/// Claimed: the result says whether `needle` occurs in `haystack` as a run of
/// consecutive characters.
#[verifier::external_body]
fn contains_text(haystack: &str, needle: &str) -> (r: bool)
    ensures
        r == occurs_in(needle@, haystack@),
{
    haystack.contains(needle)
}

/// Which agent answers an objective.
#[derive(Debug, Clone, Copy, PartialEq, Eq, Structural)]
pub enum PlanningMode {
    /// An agent without tools.
    Simple,
    /// The planning agent, which can search the conference database.
    Tools,
}

/// The agent that answers an objective.
pub open spec fn mode_of(objective: Seq<char>) -> PlanningMode {
    if occurs_in(SIMPLE_TEST_MARKER@, objective) {
        PlanningMode::Simple
    } else {
        PlanningMode::Tools
    }
}

/// The agent that answers `objective`.
pub fn planning_mode(objective: &str) -> (r: PlanningMode)
    ensures
        r == mode_of(objective@),
{
    if contains_text(objective, SIMPLE_TEST_MARKER) {
        PlanningMode::Simple
    } else {
        PlanningMode::Tools
    }
}

/// A check's outcome with the message as characters.
pub open spec fn check_view(outcome: Result<(), String>) -> Result<(), Seq<char>> {
    match outcome {
        Ok(_) => Ok(()),
        Err(message) => Err(message@),
    }
}

/// What the start-up check finds: the key of the language model is looked
/// at first, then the address of the search service.
pub open spec fn required_configuration(api_key_present: bool, api_url_present: bool) -> Result<
    (),
    Seq<char>,
> {
    if !api_key_present {
        Err(MISSING_OPENAI_KEY_MESSAGE@)
    } else if !api_url_present {
        Err(MISSING_API_URL_MESSAGE@)
    } else {
        Ok(())
    }
}

/// Whether the language-model client can be set up: it needs its key.
pub fn initialize_openai_client(api_key_present: bool) -> (r: Result<(), String>)
    ensures
        check_view(r) == if api_key_present {
            Ok::<(), Seq<char>>(())
        } else {
            Err::<(), Seq<char>>(OPENAI_KEY_NOT_FOUND_MESSAGE@)
        },
{
    if api_key_present {
        Ok(())
    } else {
        Err(OPENAI_KEY_NOT_FOUND_MESSAGE.to_owned())
    }
}

/// Whether the service can start: it needs the key of the language model
/// and the address of the search service.
pub fn validate_required_configuration(api_key_present: bool, api_url_present: bool) -> (r: Result<
    (),
    String,
>)
    ensures
        check_view(r) == required_configuration(api_key_present, api_url_present),
{
    if !api_key_present {
        return Err(MISSING_OPENAI_KEY_MESSAGE.to_owned());
    }
    if !api_url_present {
        return Err(MISSING_API_URL_MESSAGE.to_owned());
    }
    Ok(())
}

/// Where the handling of one request stands.
#[derive(Debug, Clone, Copy, PartialEq, Eq, Structural)]
pub enum PlanPhase {
    /// The language-model client is being set up.
    AwaitingClient,
    /// An agent has been given the objective.
    AwaitingAnswer,
    /// The response has been decided.
    Finished,
}

/// One request in progress.
#[derive(Debug)]
pub struct PlanRequest {
    pub phase: PlanPhase,
    pub objective: String,
}

/// What the outside work came to.
#[derive(Debug)]
pub enum PlanEvent {
    ClientReady,
    ClientFailed { detail: String },
    Answered { text: String },
    AgentFailed { detail: String },
}

/// What the caller does next.
#[derive(Debug)]
pub enum PlanAction {
    /// Set up the language-model client.
    InitializeClient,
    /// Give the objective to the agent for this mode.
    Prompt { mode: PlanningMode, objective: String },
    /// Answer the request with this body.
    Respond { body: String },
    /// The event does not belong to the phase and changes nothing.
    Ignore,
}

/// What stands before the detail when the agent for `mode` fails.
pub open spec fn agent_failure_prefix(mode: PlanningMode) -> Seq<char> {
    match mode {
        PlanningMode::Simple => SIMPLE_FAILURE_PREFIX@,
        PlanningMode::Tools => PLAN_FAILURE_PREFIX@,
    }
}

/// `action` answers the request with this body.
pub open spec fn responds(action: PlanAction, body: Seq<char>) -> bool {
    action matches PlanAction::Respond { body: b } && b@ == body
}

/// The phase after `event` arrives in `before`, and what the caller is told.
pub open spec fn plan_step_result(
    before: PlanRequest,
    event: PlanEvent,
    after: PlanPhase,
    action: PlanAction,
) -> bool {
    match (before.phase, event) {
        (PlanPhase::AwaitingClient, PlanEvent::ClientReady) => {
            &&& after == PlanPhase::AwaitingAnswer
            &&& action matches PlanAction::Prompt { mode, objective }
            &&& mode == mode_of(before.objective@)
            &&& objective@ == before.objective@
        },
        (PlanPhase::AwaitingClient, PlanEvent::ClientFailed { detail }) => {
            &&& after == PlanPhase::Finished
            &&& responds(action, CLIENT_FAILURE_PREFIX@ + detail@)
        },
        (PlanPhase::AwaitingAnswer, PlanEvent::Answered { text }) => {
            &&& after == PlanPhase::Finished
            &&& responds(action, text@)
        },
        (PlanPhase::AwaitingAnswer, PlanEvent::AgentFailed { detail }) => {
            &&& after == PlanPhase::Finished
            &&& responds(action, agent_failure_prefix(mode_of(before.objective@)) + detail@)
        },
        _ => {
            &&& after == before.phase
            &&& action is Ignore
        },
    }
}

/// The body of a response that reports a failure.
fn failure_body(prefix: &str, detail: &str) -> (r: PlanAction)
    ensures
        responds(r, prefix@ + detail@),
{
    let mut body = prefix.to_owned();
    body.append(detail);
    PlanAction::Respond { body }
}

impl PlanRequest {
    /// Begins the handling of a request.
    pub fn begin(payload: GeneratePlanRequest) -> (r: (PlanRequest, PlanAction))
        ensures
            r.0.phase == PlanPhase::AwaitingClient,
            r.0.objective == payload.objective,
            r.1 is InitializeClient,
    {
        (
            PlanRequest { phase: PlanPhase::AwaitingClient, objective: payload.objective },
            PlanAction::InitializeClient,
        )
    }

    /// Takes the outcome of the last action and says what to do next. A
    /// failure becomes the body of the response.
    pub fn step(self, event: PlanEvent) -> (r: (PlanRequest, PlanAction))
        ensures
            r.0.objective == self.objective,
            plan_step_result(self, event, r.0.phase, r.1),
    {
        let PlanRequest { phase, objective } = self;
        let (next, action) = match (phase, event) {
            (PlanPhase::AwaitingClient, PlanEvent::ClientReady) => (
                PlanPhase::AwaitingAnswer,
                PlanAction::Prompt {
                    mode: planning_mode(objective.as_str()),
                    objective: objective.clone(),
                },
            ),
            (PlanPhase::AwaitingClient, PlanEvent::ClientFailed { detail }) => (
                PlanPhase::Finished,
                failure_body(CLIENT_FAILURE_PREFIX, detail.as_str()),
            ),
            (PlanPhase::AwaitingAnswer, PlanEvent::Answered { text }) => (
                PlanPhase::Finished,
                PlanAction::Respond { body: text },
            ),
            (PlanPhase::AwaitingAnswer, PlanEvent::AgentFailed { detail }) => {
                let prefix = match planning_mode(objective.as_str()) {
                    PlanningMode::Simple => SIMPLE_FAILURE_PREFIX,
                    PlanningMode::Tools => PLAN_FAILURE_PREFIX,
                };
                (PlanPhase::Finished, failure_body(prefix, detail.as_str()))
            },
            (unchanged, _) => (unchanged, PlanAction::Ignore),
        };
        (PlanRequest { phase: next, objective }, action)
    }
}

} // verus!
