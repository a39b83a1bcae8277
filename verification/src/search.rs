//! The decisions of one search of the conference database. The caller does
//! the outside work (building the HTTP client, sending the request, decoding
//! the body) and reports each outcome as an event; every step answers with
//! what to do next.

use crate::models::{VivatechQueryResponse, VivatechSource};
use crate::text::{parse_u64, parsed_unsigned};
use crate::tools::{ApiErrorKind, QueryVivatechAPI, QueryVivatechArgs, VivatechApiError};
use vstd::prelude::*;
use vstd::string::*;

verus! {

/// Seconds to wait for the search service where no other limit is
/// configured.
pub const DEFAULT_TIMEOUT_SECONDS: u64 = 30;

/// Message of the failure for a missing address.
pub const URL_MISSING_MESSAGE: &'static str = "VIVATECH_API_URL not found in environment";

/// What stands before the detail where the HTTP client cannot be built.
pub const CLIENT_FAILED_PREFIX: &'static str = "Failed to create HTTP client: ";

/// What stands before the detail where the request fails on its way.
pub const REQUEST_FAILED_PREFIX: &'static str = "HTTP request failed: ";

/// What stands before the status where the service reports a failure.
pub const STATUS_ERROR_PREFIX: &'static str = "API returned error status: ";

/// What stands before the detail where the body cannot be decoded.
pub const BODY_REJECTED_PREFIX: &'static str = "Failed to parse JSON response: ";

/// The characters of a configured value, if there is one.
pub open spec fn text_view(text: Option<&str>) -> Option<Seq<char>> {
    match text {
        Some(t) => Some(t@),
        None => None,
    }
}

/// The time limit under a configured value: the number it writes, and the
/// default where there is no value or it is no number.
pub open spec fn timeout_seconds(configured: Option<Seq<char>>) -> int {
    match configured {
        Some(text) => match parsed_unsigned(text, u64::MAX as int) {
            Some(seconds) => seconds,
            None => DEFAULT_TIMEOUT_SECONDS as int,
        },
        None => DEFAULT_TIMEOUT_SECONDS as int,
    }
}

/// A status in the success range of HTTP.
pub open spec fn is_success_status(status: u16) -> bool {
    200 <= status <= 299
}

/// Where a search stands.
#[derive(Debug, Clone, Copy, PartialEq, Eq, Structural)]
pub enum SearchPhase {
    /// The HTTP client is being built.
    AwaitingClient,
    /// The request is on its way.
    AwaitingResponse,
    /// A response with a success status is being decoded.
    AwaitingBody,
    /// The search has returned or failed.
    Finished,
}

/// One search in progress.
#[derive(Debug)]
pub struct SearchCall {
    pub phase: SearchPhase,
    pub query: String,
    pub api_url: Option<String>,
}

/// What the outside work came to.
#[derive(Debug)]
pub enum SearchEvent {
    ClientBuilt,
    ClientFailed { detail: String },
    /// A response came; `status_text` is the status as it is shown to people.
    ResponseReceived { status: u16, status_text: String },
    RequestFailed { detail: String },
    BodyDecoded { response: VivatechQueryResponse },
    BodyRejected { detail: String },
}

/// What the caller does next.
#[derive(Debug)]
pub enum SearchAction {
    BuildClient { timeout_seconds: u64 },
    /// Post the query to the service, once.
    SendRequest { url: String, query: String },
    DecodeBody,
    /// The search ends with these sources.
    Return { sources: Vec<VivatechSource> },
    /// The search ends with this failure.
    Fail { error: VivatechApiError },
    /// The event does not belong to the phase and changes nothing.
    Ignore,
}

/// `action` fails the search with an error of this kind and message.
pub open spec fn fails_with(action: SearchAction, kind: ApiErrorKind, message: Seq<char>) -> bool {
    &&& action matches SearchAction::Fail { error }
    &&& error.kind == kind
    &&& error.message@ == message
}

/// The phase after `event` arrives in `before`, and what the caller is told.
pub open spec fn step_result(
    before: SearchCall,
    event: SearchEvent,
    after: SearchPhase,
    action: SearchAction,
) -> bool {
    match (before.phase, event) {
        (SearchPhase::AwaitingClient, SearchEvent::ClientBuilt) => match before.api_url {
            Some(configured) => {
                &&& after == SearchPhase::AwaitingResponse
                &&& action matches SearchAction::SendRequest { url, query }
                &&& url@ == configured@
                &&& query@ == before.query@
            },
            None => {
                &&& after == SearchPhase::Finished
                &&& fails_with(action, ApiErrorKind::Configuration, URL_MISSING_MESSAGE@)
            },
        },
        (SearchPhase::AwaitingClient, SearchEvent::ClientFailed { detail }) => {
            &&& after == SearchPhase::Finished
            &&& fails_with(action, ApiErrorKind::Transport, CLIENT_FAILED_PREFIX@ + detail@)
        },
        (SearchPhase::AwaitingResponse, SearchEvent::ResponseReceived { status, status_text }) => {
            if is_success_status(status) {
                &&& after == SearchPhase::AwaitingBody
                &&& action is DecodeBody
            } else {
                &&& after == SearchPhase::Finished
                &&& fails_with(action, ApiErrorKind::Status, STATUS_ERROR_PREFIX@ + status_text@)
            }
        },
        (SearchPhase::AwaitingResponse, SearchEvent::RequestFailed { detail }) => {
            &&& after == SearchPhase::Finished
            &&& fails_with(action, ApiErrorKind::Transport, REQUEST_FAILED_PREFIX@ + detail@)
        },
        (SearchPhase::AwaitingBody, SearchEvent::BodyDecoded { response }) => {
            &&& after == SearchPhase::Finished
            &&& action matches SearchAction::Return { sources }
            &&& sources == response.sources
        },
        (SearchPhase::AwaitingBody, SearchEvent::BodyRejected { detail }) => {
            &&& after == SearchPhase::Finished
            &&& fails_with(action, ApiErrorKind::Deserialization, BODY_REJECTED_PREFIX@ + detail@)
        },
        _ => {
            &&& after == before.phase
            &&& action is Ignore
        },
    }
}

/// The time limit for a request, in seconds.
pub fn get_api_timeout_seconds(configured: Option<&str>) -> (r: u64)
    ensures
        r == timeout_seconds(text_view(configured)),
{
    match configured {
        Some(text) => match parse_u64(text) {
            Some(seconds) => seconds,
            None => DEFAULT_TIMEOUT_SECONDS,
        },
        None => DEFAULT_TIMEOUT_SECONDS,
    }
}

/// The address of the search service as configured, or the failure for a
/// missing address.
pub open spec fn configured_url(configured: Option<Seq<char>>) -> Result<
    Seq<char>,
    (ApiErrorKind, Seq<char>),
> {
    match configured {
        Some(url) => Ok(url),
        None => Err((ApiErrorKind::Configuration, URL_MISSING_MESSAGE@)),
    }
}

/// A looked-up address with its strings as characters.
pub open spec fn url_view(outcome: Result<String, VivatechApiError>) -> Result<
    Seq<char>,
    (ApiErrorKind, Seq<char>),
> {
    match outcome {
        Ok(url) => Ok(url@),
        Err(error) => Err((error.kind, error.message@)),
    }
}

/// The address of the search service, which has to be configured.
pub fn get_vivatech_api_url(configured: Option<&str>) -> (r: Result<String, VivatechApiError>)
    ensures
        url_view(r) == configured_url(text_view(configured)),
{
    match configured {
        Some(url) => Ok(url.to_owned()),
        None => Err(
            VivatechApiError {
                kind: ApiErrorKind::Configuration,
                message: URL_MISSING_MESSAGE.to_owned(),
            },
        ),
    }
}

/// A failure of `kind` whose message is `prefix` followed by `detail`.
fn failure(kind: ApiErrorKind, prefix: &str, detail: &str) -> (r: SearchAction)
    ensures
        fails_with(r, kind, prefix@ + detail@),
{
    let mut message = prefix.to_owned();
    message.append(detail);
    SearchAction::Fail { error: VivatechApiError { kind, message } }
}

impl QueryVivatechAPI {
    /// Begins a search: the first thing to do is to build an HTTP client that
    /// gives up after the configured time.
    pub fn call(&self, args: QueryVivatechArgs, api_url: Option<String>, timeout: Option<&str>) -> (r:
        (SearchCall, SearchAction))
        ensures
            r.0.phase == SearchPhase::AwaitingClient,
            r.0.query == args.query,
            r.0.api_url == api_url,
            r.1 matches SearchAction::BuildClient { timeout_seconds: seconds } && seconds
                == timeout_seconds(text_view(timeout)),
    {
        let call = SearchCall { phase: SearchPhase::AwaitingClient, query: args.query, api_url };
        (call, SearchAction::BuildClient { timeout_seconds: get_api_timeout_seconds(timeout) })
    }
}

impl SearchCall {
    /// Takes the outcome of the last action and says what to do next. Each
    /// failure ends the search; nothing is tried twice.
    pub fn step(self, event: SearchEvent) -> (r: (SearchCall, SearchAction))
        ensures
            r.0.query == self.query,
            r.0.api_url == self.api_url,
            step_result(self, event, r.0.phase, r.1),
    {
        let SearchCall { phase, query, api_url } = self;
        let (next, action) = match (phase, event) {
            (SearchPhase::AwaitingClient, SearchEvent::ClientBuilt) => {
                let configured = match &api_url {
                    Some(url) => Some(url.as_str()),
                    None => None,
                };
                match get_vivatech_api_url(configured) {
                    Ok(url) => (
                        SearchPhase::AwaitingResponse,
                        SearchAction::SendRequest { url, query: query.clone() },
                    ),
                    Err(error) => (SearchPhase::Finished, SearchAction::Fail { error }),
                }
            },
            (SearchPhase::AwaitingClient, SearchEvent::ClientFailed { detail }) => (
                SearchPhase::Finished,
                failure(ApiErrorKind::Transport, CLIENT_FAILED_PREFIX, detail.as_str()),
            ),
            (
                SearchPhase::AwaitingResponse,
                SearchEvent::ResponseReceived { status, status_text },
            ) => {
                if 200 <= status && status <= 299 {
                    (SearchPhase::AwaitingBody, SearchAction::DecodeBody)
                } else {
                    (
                        SearchPhase::Finished,
                        failure(ApiErrorKind::Status, STATUS_ERROR_PREFIX, status_text.as_str()),
                    )
                }
            },
            (SearchPhase::AwaitingResponse, SearchEvent::RequestFailed { detail }) => (
                SearchPhase::Finished,
                failure(ApiErrorKind::Transport, REQUEST_FAILED_PREFIX, detail.as_str()),
            ),
            (SearchPhase::AwaitingBody, SearchEvent::BodyDecoded { response }) => (
                SearchPhase::Finished,
                SearchAction::Return { sources: response.sources },
            ),
            (SearchPhase::AwaitingBody, SearchEvent::BodyRejected { detail }) => (
                SearchPhase::Finished,
                failure(ApiErrorKind::Deserialization, BODY_REJECTED_PREFIX, detail.as_str()),
            ),
            (unchanged, _) => (unchanged, SearchAction::Ignore),
        };
        (SearchCall { phase: next, query, api_url }, action)
    }
}

/// Two actions ask for the same thing.
pub open spec fn same_action(a: SearchAction, b: SearchAction) -> bool {
    match (a, b) {
        (
            SearchAction::BuildClient { timeout_seconds: x },
            SearchAction::BuildClient { timeout_seconds: y },
        ) => x == y,
        (
            SearchAction::SendRequest { url: u1, query: q1 },
            SearchAction::SendRequest { url: u2, query: q2 },
        ) => u1@ == u2@ && q1@ == q2@,
        (SearchAction::DecodeBody, SearchAction::DecodeBody) => true,
        (SearchAction::Return { sources: s1 }, SearchAction::Return { sources: s2 }) => s1 == s2,
        (SearchAction::Fail { error: e1 }, SearchAction::Fail { error: e2 }) => e1.kind == e2.kind
            && e1.message@ == e2.message@,
        (SearchAction::Ignore, SearchAction::Ignore) => true,
        _ => false,
    }
}

/// What a search does next depends on where it stands and on the event
/// alone: the same event in the same place leads to the same phase and asks
/// for the same action, whatever searches came before.
pub proof fn law_step_is_determined(
    before: SearchCall,
    event: SearchEvent,
    after1: SearchPhase,
    action1: SearchAction,
    after2: SearchPhase,
    action2: SearchAction,
)
    requires
        step_result(before, event, after1, action1),
        step_result(before, event, after2, action2),
    ensures
        after1 == after2,
        same_action(action1, action2),
{
}

} // verus!
