//! The gateway's decisions: which request asks for what, and what the answer
//! to it is. Reading the request, taking the locks and calling the device or
//! the queueing service are the caller's part.

use crate::frame_buf::frame_bytes;
use crate::json::json_object;
use crate::json::json_object_text;
use crate::json::json_string;
use crate::json::json_string_text;
use crate::json::json_text;
use crate::json::json_to_string;
use crate::json::json_unsigned;
use crate::json::json_unsigned_text;
use crate::models::held_frame;
use crate::response::Body;
use crate::response::BodyView;
use crate::response::json_response;
use crate::response::plain_response;
use crate::response::respond_json;
use crate::response::respond_plain;
use crate::response::Response;
use crate::response::ResponseView;
use crate::response::STATUS_NOT_FOUND;
use crate::response::STATUS_OK;
use crate::response::STATUS_SERVICE_UNAVAILABLE;
use crate::text::str_eq;
use bytes::Bytes;
use serde_json::Value;
use vstd::prelude::*;
use vstd::string::StrSliceExecFns;

verus! {

/// What a request asks for.
#[derive(Clone, Copy, Debug, PartialEq, Eq, Structural)]
pub enum Route {
    /// `GET /frame`: the latest frame.
    Frame,
    /// `GET /status`: the throughput counters.
    Status,
    /// `GET /aq_status`: the queueing service's status, relayed.
    AqStatus,
    /// `GET /aq_queues`: the queueing service's queues, relayed.
    AqQueues,
    /// `POST /aq_run`: a run request, relayed to the queueing service.
    AqRun,
    /// `GET` of any other path: a static asset.
    Asset,
    /// `POST /input`: an input command for the device.
    Input,
    /// Anything else.
    NotFound,
}

/// What a request with this method and path asks for.
pub open spec fn route_of(method: Seq<char>, path: Seq<char>) -> Route {
    if method == "GET"@ {
        if path == "/frame"@ {
            Route::Frame
        } else if path == "/status"@ {
            Route::Status
        } else if path == "/aq_status"@ {
            Route::AqStatus
        } else if path == "/aq_queues"@ {
            Route::AqQueues
        } else {
            Route::Asset
        }
    } else if method == "POST"@ {
        if path == "/aq_run"@ {
            Route::AqRun
        } else if path == "/input"@ {
            Route::Input
        } else {
            Route::NotFound
        }
    } else {
        Route::NotFound
    }
}

/// Routes a request by its method, as HTTP spells it, and its path.
pub fn handle_request(method: &str, path: &str) -> (route: Route)
    ensures
        route == route_of(method@, path@),
{
    if str_eq(method, "GET") {
        if str_eq(path, "/frame") {
            Route::Frame
        } else if str_eq(path, "/status") {
            Route::Status
        } else if str_eq(path, "/aq_status") {
            Route::AqStatus
        } else if str_eq(path, "/aq_queues") {
            Route::AqQueues
        } else {
            Route::Asset
        }
    } else if str_eq(method, "POST") {
        if str_eq(path, "/aq_run") {
            Route::AqRun
        } else if str_eq(path, "/input") {
            Route::Input
        } else {
            Route::NotFound
        }
    } else {
        Route::NotFound
    }
}

/// The headers that go with a frame: its type, and that it must not be
/// cached.
pub open spec fn frame_headers() -> Seq<(Seq<char>, Seq<char>)> {
    seq![
        ("Content-Type"@, "image/jpeg"@),
        ("Cache-Control"@, "no-cache, no-store, must-revalidate"@),
        ("Pragma"@, "no-cache"@),
        ("Expires"@, "0"@),
    ]
}

/// The answer to a request for the latest frame, given what the frame cell
/// holds.
pub open spec fn frame_answer(held: Option<Seq<u8>>) -> ResponseView {
    match held {
        Some(frame) => ResponseView {
            status: STATUS_OK,
            headers: frame_headers(),
            body: BodyView::Frame(frame),
        },
        None => plain_response(STATUS_SERVICE_UNAVAILABLE, "Frame not available"@),
    }
}

/// Answers a request for the latest frame with what was read from the frame
/// cell: the frame, whole, or "unavailable" where no frame has been ingested
/// yet. A frame of no bytes is a frame.
pub fn frame_response(frame: Option<Bytes>) -> (response: Response)
    ensures
        response@ == frame_answer(held_frame(frame)),
{
    match frame {
        Some(frame) => {
            let mut headers: Vec<(String, String)> = Vec::new();
            headers.push(("Content-Type".to_owned(), "image/jpeg".to_owned()));
            headers.push(
                ("Cache-Control".to_owned(), "no-cache, no-store, must-revalidate".to_owned()),
            );
            headers.push(("Pragma".to_owned(), "no-cache".to_owned()));
            headers.push(("Expires".to_owned(), "0".to_owned()));
            let response = Response { status: STATUS_OK, headers, body: Body::Frame(frame) };
            assert(response@.headers =~= frame_headers());
            response
        },
        None => respond_plain(STATUS_SERVICE_UNAVAILABLE, "Frame not available"),
    }
}

/// A request for the latest frame is answered "unavailable" exactly while
/// no frame has been ingested; a frame of no bytes is served as a frame.
pub proof fn lemma_unavailable_only_without_frame(held: Option<Seq<u8>>)
    ensures
        frame_answer(held).status == STATUS_SERVICE_UNAVAILABLE <==> held is None,
        held is Some ==> frame_answer(held).status == STATUS_OK && frame_answer(held).body
            == BodyView::Frame(held->0),
{
}

/// The JSON object with the one member `key`, a string.
pub open spec fn one_string_object(key: Seq<char>, value: Seq<char>) -> Seq<char> {
    json_object_text(seq![(key, json_string_text(value))])
}

/// The status document: `status` is `up`, and `data` holds the frame count
/// of the last completed window as `fps`.
pub open spec fn status_document(fps: u32) -> Seq<char> {
    json_object_text(
        seq![
            ("status"@, json_string_text("up"@)),
            ("data"@, json_object_text(seq![("fps"@, json_unsigned_text(fps as u64))])),
        ],
    )
}

/// Prints the JSON object with the one member `key`, a string.
pub fn print_one_string_object(key: &str, value: &str) -> (document: String)
    ensures
        document@ == one_string_object(key@, value@),
{
    let mut members: Vec<(String, Value)> = Vec::new();
    members.push((key.to_owned(), json_string(value)));
    let object = json_object(members);
    assert(members@.map_values(|m: (String, Value)| (m.0@, json_text(m.1))) =~= seq![
        (key@, json_string_text(value@)),
    ]);
    json_to_string(&object)
}

/// Answers a request for the throughput counters with the frame count that
/// was read from them.
pub fn status_response(fps: u32) -> (response: Response)
    ensures
        response@ == json_response(STATUS_OK, status_document(fps)),
{
    let mut data: Vec<(String, Value)> = Vec::new();
    data.push(("fps".to_owned(), json_unsigned(fps as u64)));
    let data_object = json_object(data);
    assert(data@.map_values(|m: (String, Value)| (m.0@, json_text(m.1))) =~= seq![
        ("fps"@, json_unsigned_text(fps as u64)),
    ]);
    let mut members: Vec<(String, Value)> = Vec::new();
    members.push(("status".to_owned(), json_string("up")));
    members.push(("data".to_owned(), data_object));
    let object = json_object(members);
    assert(members@.map_values(|m: (String, Value)| (m.0@, json_text(m.1))) =~= seq![
        ("status"@, json_string_text("up"@)),
        ("data"@, json_object_text(seq![("fps"@, json_unsigned_text(fps as u64))])),
    ]);
    respond_json(STATUS_OK, json_to_string(&object))
}

/// Answers a request that no route takes.
pub fn not_found_response() -> (response: Response)
    ensures
        response@ == json_response(STATUS_NOT_FOUND, one_string_object("error"@, "Not Found"@)),
{
    respond_json(STATUS_NOT_FOUND, print_one_string_object("error", "Not Found"))
}

/// The name under which the asset for `path` is kept: the path without its
/// leading slash. `None` where the path does not start with a slash.
pub open spec fn asset_name(path: Seq<char>) -> Option<Seq<char>> {
    if path.len() > 0 && path[0] == '/' {
        Some(path.skip(1))
    } else {
        None
    }
}

/// The name under which the asset for `path` is kept.
pub fn asset_key(path: &str) -> (name: Option<&str>)
    ensures
        match asset_name(path@) {
            Some(expected) => name matches Some(found) && found@ == expected,
            None => name is None,
        },
{
    let len = path.unicode_len();
    if len > 0 && path.get_char(0) == '/' {
        let rest = path.substring_char(1, len);
        assert(path@.subrange(1, len as int) == path@.skip(1));
        Some(rest)
    } else {
        None
    }
}

/// The answer to a request for an asset: what was found under its name,
/// with the media type guessed for the path, or "not found".
pub open spec fn asset_answer(content: Option<Seq<u8>>, media_type: Seq<char>) -> ResponseView {
    match content {
        Some(bytes) => ResponseView {
            status: STATUS_OK,
            headers: seq![("Content-Type"@, media_type)],
            body: BodyView::Raw(bytes),
        },
        None => plain_response(STATUS_NOT_FOUND, "Not Found"@),
    }
}

/// Answers a request for an asset with what was found under its name and
/// the media type that goes with it.
pub fn asset_response(content: Option<Vec<u8>>, media_type: String) -> (response: Response)
    ensures
        response@ == asset_answer(
            match content {
                Some(bytes) => Some(bytes@),
                None => None,
            },
            media_type@,
        ),
{
    match content {
        Some(bytes) => {
            let mut headers: Vec<(String, String)> = Vec::new();
            headers.push(("Content-Type".to_owned(), media_type));
            let response = Response { status: STATUS_OK, headers, body: Body::Raw(bytes) };
            assert(response@.headers =~= seq![("Content-Type"@, media_type@)]);
            response
        },
        None => respond_plain(STATUS_NOT_FOUND, "Not Found"),
    }
}

/// `mime_guess::from_path(path).first_or_octet_stream()`, as text: the
/// media type that the path's extension suggests. Which part of a path is
/// its extension goes by the platform's path rules, so nothing is stated of
/// the result.
#[verifier::external_body]
pub(crate) fn guess_media_type(path: &str) -> (media_type: String) {
    let media_type = mime_guess::from_path(path).first_or_octet_stream();
    let text: &str = media_type.as_ref();
    text.to_owned()
}

/// Answers a request for the asset at `path` with what was found under its
/// name: the content as it is, under the media type guessed for the path,
/// or "not found".
pub fn serve_asset(path: &str, content: Option<Vec<u8>>) -> (response: Response)
    ensures
        match content {
            Some(bytes) => exists|media_type: Seq<char>|
                response@ == asset_answer(Some(bytes@), media_type),
            None => response@ == asset_answer(None, Seq::empty()),
        },
{
    match content {
        Some(bytes) => {
            let media_type = guess_media_type(path);
            asset_response(Some(bytes), media_type)
        },
        None => asset_response(None, String::new()),
    }
}

} // verus!
