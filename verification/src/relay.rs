//! Requests that are relayed to the queueing service: where they go, what
//! is sent, and how the service's answer is passed on.

use crate::input::get_text;
use crate::input::get_unsigned;
use crate::input::text_member;
use crate::input::unsigned_member;
use crate::input::ValidationError;
use crate::json::json_is_null;
use crate::json::json_is_object;
use crate::json::json_object;
use crate::json::json_object_members;
use crate::json::json_object_text;
use crate::json::json_set_member;
use crate::json::json_string;
use crate::json::json_string_text;
use crate::json::json_text;
use crate::json::json_text_is_null;
use crate::json::json_text_is_object;
use crate::json::json_text_with_member;
use crate::json::json_to_string;
use crate::json::json_unsigned;
use crate::json::json_unsigned_text;
use crate::json::JsonField;
use crate::json::Members;
use crate::json::members_view;
use crate::json::parse_object;
use crate::response::json_response;
use crate::response::respond_json;
use crate::response::Response;
use crate::response::ResponseView;
use crate::response::STATUS_OK;
use crate::web_server::one_string_object;
use crate::web_server::print_one_string_object;
use crate::web_server::Route;
use serde_json::Value;
use vstd::prelude::*;
use vstd::string::StringExecFns;

verus! {

/// The path on the queueing service that a route is relayed to.
pub open spec fn aq_path(route: Route) -> Option<Seq<char>> {
    match route {
        Route::AqStatus => Some("/status"@),
        Route::AqQueues => Some("/queues"@),
        Route::AqRun => Some("/run"@),
        _ => None,
    }
}

/// The address that a route is relayed to, on the service at `aq_addr`.
pub open spec fn aq_endpoint_text(aq_addr: Seq<char>, route: Route) -> Option<Seq<char>> {
    match aq_path(route) {
        Some(path) => Some("http://"@ + aq_addr + path),
        None => None,
    }
}

/// The address that a route is relayed to; `None` for a route that is
/// answered here.
pub fn aq_endpoint(aq_addr: &str, route: Route) -> (endpoint: Option<String>)
    ensures
        match aq_endpoint_text(aq_addr@, route) {
            Some(text) => endpoint matches Some(e) && e@ == text,
            None => endpoint is None,
        },
{
    let path = match route {
        Route::AqStatus => "/status",
        Route::AqQueues => "/queues",
        Route::AqRun => "/run",
        _ => {
            return None;
        },
    };
    let mut endpoint = "http://".to_owned();
    endpoint.append(aq_addr);
    endpoint.append(path);
    Some(endpoint)
}

/// A run request: which queue to run, and how often.
#[derive(Debug)]
pub struct RunRequest {
    pub queue: String,
    pub iterations: u64,
}

/// The run request that an object with these members spells: its `queue`,
/// a string, and its `iterations`, a number.
pub open spec fn run_of(members: Members) -> Result<(Seq<char>, u64), ValidationError> {
    match (text_member(members, "queue"@), unsigned_member(members, "iterations"@)) {
        (Some(queue), Some(iterations)) => Ok((queue, iterations)),
        _ => Err(ValidationError::InvalidJson),
    }
}

/// The run request that a request body spells.
pub open spec fn run_request_of(body: Seq<u8>) -> Result<(Seq<char>, u64), ValidationError> {
    match json_object_members(body) {
        Some(members) => run_of(members),
        None => Err(ValidationError::InvalidJson),
    }
}

/// The document that is sent to the queueing service for a run request.
pub open spec fn run_document(queue: Seq<char>, iterations: u64) -> Seq<char> {
    json_object_text(
        seq![
            ("queue"@, json_string_text(queue)),
            ("iterations"@, json_unsigned_text(iterations)),
        ],
    )
}

/// A decoded run request in contracts.
pub open spec fn run_view(outcome: Result<RunRequest, ValidationError>) -> Result<
    (Seq<char>, u64),
    ValidationError,
> {
    match outcome {
        Ok(run) => Ok((run.queue@, run.iterations)),
        Err(e) => Err(e),
    }
}

/// Decodes the run request that the members of a request body spell.
pub fn decode_run(members: &Vec<(String, JsonField)>) -> (outcome: Result<
    RunRequest,
    ValidationError,
>)
    ensures
        run_view(outcome) == run_of(members_view(members@)),
{
    let queue = get_text(members, "queue");
    let iterations = get_unsigned(members, "iterations");
    match (queue, iterations) {
        (Some(queue), Some(iterations)) => Ok(RunRequest { queue: queue.clone(), iterations }),
        _ => Err(ValidationError::InvalidJson),
    }
}

/// Prints the document that is sent to the queueing service for `run`.
pub fn print_run_request(run: &RunRequest) -> (document: String)
    ensures
        document@ == run_document(run.queue@, run.iterations),
{
    let mut members: Vec<(String, Value)> = Vec::new();
    members.push(("queue".to_owned(), json_string(run.queue.as_str())));
    members.push(("iterations".to_owned(), json_unsigned(run.iterations)));
    let object = json_object(members);
    assert(members@.map_values(|m: (String, Value)| (m.0@, json_text(m.1))) =~= seq![
        ("queue"@, json_string_text(run.queue@)),
        ("iterations"@, json_unsigned_text(run.iterations)),
    ]);
    json_to_string(&object)
}

/// Turns the body of a run request into the document to send on, or says
/// why the body is turned down.
pub fn aq_run_request(body: &[u8]) -> (outcome: Result<String, ValidationError>)
    ensures
        match run_request_of(body@) {
            Ok((queue, iterations)) => outcome matches Ok(document) && document@
                == run_document(queue, iterations),
            Err(error) => outcome == Err::<String, ValidationError>(error),
        },
{
    match parse_object(body) {
        Some(members) => match decode_run(&members) {
            Ok(run) => Ok(print_run_request(&run)),
            Err(error) => Err(error),
        },
        None => Err(ValidationError::InvalidJson),
    }
}

/// Whether a document can be given a member: it is an object, or `null`.
pub open spec fn takes_members(doc: Seq<char>) -> bool {
    json_text_is_object(doc) || json_text_is_null(doc)
}

/// The answer that passes the service's answer on. `upstream` is the text
/// of the document that the service sent, or `None` where the service could
/// not be reached. Where the service sent a document that can take no
/// member, there is no answer.
pub open spec fn relay_answer(upstream: Option<Seq<char>>) -> Option<ResponseView> {
    match upstream {
        None => Some(json_response(STATUS_OK, one_string_object("status"@, "down"@))),
        Some(doc) => if takes_members(doc) {
            Some(
                json_response(
                    STATUS_OK,
                    json_text_with_member(doc, "status"@, json_string_text("up"@)),
                ),
            )
        } else {
            None
        },
    }
}

/// What the service sent, in contracts: the text of its document.
pub open spec fn upstream_text(upstream: Option<Value>) -> Option<Seq<char>> {
    match upstream {
        Some(document) => Some(json_text(document)),
        None => None,
    }
}

/// An answer that may be missing, in contracts.
pub open spec fn answer_view(answer: Option<Response>) -> Option<ResponseView> {
    match answer {
        Some(response) => Some(response@),
        None => None,
    }
}

/// Passes the queueing service's answer on.
///
/// Where the service could not be reached, the answer says that it is
/// down. Else the answer is the service's document with `status` set to
/// `up`. A document that is neither an object nor `null` cannot take that
/// member: the result is `None`.
pub fn handle_aq_response(response: Option<Value>) -> (answer: Option<Response>)
    ensures
        answer_view(answer) == relay_answer(upstream_text(response)),
{
    match response {
        None => Some(respond_json(STATUS_OK, print_one_string_object("status", "down"))),
        Some(document) => {
            if json_is_object(&document) || json_is_null(&document) {
                let mut document = document;
                json_set_member(&mut document, "status", json_string("up"));
                Some(respond_json(STATUS_OK, json_to_string(&document)))
            } else {
                None
            }
        },
    }
}

} // verus!
