//! Responses, as plain values that the caller turns into its HTTP library's
//! own.

use crate::frame_buf::frame_bytes;
use bytes::Bytes;
use vstd::prelude::*;

verus! {

pub const STATUS_OK: u16 = 200;

pub const STATUS_BAD_REQUEST: u16 = 400;

pub const STATUS_NOT_FOUND: u16 = 404;

pub const STATUS_SERVICE_UNAVAILABLE: u16 = 503;

/// What a response carries.
#[derive(Debug)]
pub enum Body {
    /// Text: a message or a JSON document.
    Text(String),
    /// A frame, shared with the frame cell.
    Frame(Bytes),
    /// The bytes of a static asset.
    Raw(Vec<u8>),
}

/// A `Body` in contracts.
pub enum BodyView {
    Text(Seq<char>),
    Frame(Seq<u8>),
    Raw(Seq<u8>),
}

impl View for Body {
    type V = BodyView;

    open spec fn view(&self) -> BodyView {
        match self {
            Body::Text(text) => BodyView::Text(text@),
            Body::Frame(frame) => BodyView::Frame(frame_bytes(*frame)),
            Body::Raw(bytes) => BodyView::Raw(bytes@),
        }
    }
}

/// A response: status code, headers in the order they are set, body.
#[derive(Debug)]
pub struct Response {
    pub status: u16,
    pub headers: Vec<(String, String)>,
    pub body: Body,
}

/// A `Response` in contracts.
pub struct ResponseView {
    pub status: u16,
    pub headers: Seq<(Seq<char>, Seq<char>)>,
    pub body: BodyView,
}

impl View for Response {
    type V = ResponseView;

    open spec fn view(&self) -> ResponseView {
        ResponseView {
            status: self.status,
            headers: self.headers@.map_values(|h: (String, String)| (h.0@, h.1@)),
            body: self.body@,
        }
    }
}

/// The one header of a JSON response.
pub open spec fn json_headers() -> Seq<(Seq<char>, Seq<char>)> {
    seq![("Content-Type"@, "application/json"@)]
}

/// A response without headers that carries a message.
pub open spec fn plain_response(status: u16, message: Seq<char>) -> ResponseView {
    ResponseView { status, headers: Seq::empty(), body: BodyView::Text(message) }
}

/// A response that carries a JSON document.
pub open spec fn json_response(status: u16, document: Seq<char>) -> ResponseView {
    ResponseView { status, headers: json_headers(), body: BodyView::Text(document) }
}

/// A response without headers that carries `message`.
pub fn respond_plain(status: u16, message: &str) -> (response: Response)
    ensures
        response@ == plain_response(status, message@),
{
    let response = Response {
        status,
        headers: Vec::new(),
        body: Body::Text(message.to_owned()),
    };
    assert(response@.headers =~= Seq::empty());
    response
}

/// A response that carries the JSON document `document`.
pub fn respond_json(status: u16, document: String) -> (response: Response)
    ensures
        response@ == json_response(status, document@),
{
    let mut headers: Vec<(String, String)> = Vec::new();
    headers.push(("Content-Type".to_owned(), "application/json".to_owned()));
    let response = Response { status, headers, body: Body::Text(document) };
    assert(response@.headers =~= json_headers());
    response
}

} // verus!
