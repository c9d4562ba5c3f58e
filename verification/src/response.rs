//! Responses and handler outcomes.
//!
//! A `Response` carries a status code, the small header set the core produces
//! (`Content-Type`, `Cache-Control`, `Last-Modified`) and a body. A handler
//! run ends in a `HandlerOutcome`: either a response or a `HandlerError` that
//! the dispatcher later converts to a plain 500 answer.

use vstd::prelude::*;

verus! {

/// A response body: empty, text, or raw bytes.
pub enum ResponseBody {
    Empty,
    Text(String),
    Bytes(Vec<u8>),
}

/// Mathematical shape of a response body.
pub enum BodyView {
    Empty,
    Text(Seq<char>),
    Bytes(Seq<u8>),
}

impl View for ResponseBody {
    type V = BodyView;

    open spec fn view(&self) -> BodyView {
        match self {
            ResponseBody::Empty => BodyView::Empty,
            ResponseBody::Text(s) => BodyView::Text(s@),
            ResponseBody::Bytes(b) => BodyView::Bytes(b@),
        }
    }
}

/// A response as the core hands it back: status, the produced headers, body.
pub struct Response {
    pub status: u16,
    pub content_type: Option<String>,
    pub cache_control: Option<String>,
    pub last_modified: Option<String>,
    pub body: ResponseBody,
}

/// Mathematical shape of a response.
pub struct ResponseView {
    pub status: u16,
    pub content_type: Option<Seq<char>>,
    pub cache_control: Option<Seq<char>>,
    pub last_modified: Option<Seq<char>>,
    pub body: BodyView,
}

impl View for Response {
    type V = ResponseView;

    open spec fn view(&self) -> ResponseView {
        ResponseView {
            status: self.status,
            content_type: match &self.content_type {
                Some(s) => Some(s@),
                None => None,
            },
            cache_control: match &self.cache_control {
                Some(s) => Some(s@),
                None => None,
            },
            last_modified: match &self.last_modified {
                Some(s) => Some(s@),
                None => None,
            },
            body: self.body@,
        }
    }
}

/// A headerless response with an empty body, as `build_response_status` makes.
pub open spec fn spec_status_response(status: u16) -> ResponseView {
    ResponseView {
        status,
        content_type: None,
        cache_control: None,
        last_modified: None,
        body: BodyView::Empty,
    }
}

/// A text response with a content type, as `build_response_string` makes.
pub open spec fn spec_string_response(status: u16, body: Seq<char>, content_type: Seq<char>) -> ResponseView {
    ResponseView {
        status,
        content_type: Some(content_type),
        cache_control: None,
        last_modified: None,
        body: BodyView::Text(body),
    }
}

/// A response with the given status and an empty body, carrying no headers.
pub fn build_response_status(status_code: u16) -> (r: Response)
    ensures
        r@ == spec_status_response(status_code),
{
    Response {
        status: status_code,
        content_type: None,
        cache_control: None,
        last_modified: None,
        body: ResponseBody::Empty,
    }
}

/// A text response with the given status, body and content type.
pub fn build_response_string(status_code: u16, body: String, content_type: String) -> (r: Response)
    ensures
        r@ == spec_string_response(status_code, body@, content_type@),
{
    Response {
        status: status_code,
        content_type: Some(content_type),
        cache_control: None,
        last_modified: None,
        body: ResponseBody::Text(body),
    }
}

/// The `Content-Type` value for plain text bodies.
pub fn text_plain_content_type_header_value() -> (r: String)
    ensures
        r@ == "text/plain"@,
{
    "text/plain".to_owned()
}

/// The `Content-Type` value for HTML bodies.
pub fn text_html_content_type_header_value() -> (r: String)
    ensures
        r@ == "text/html"@,
{
    "text/html".to_owned()
}

/// The `Content-Type` value for JSON bodies.
pub fn application_json_content_type_header_value() -> (r: String)
    ensures
        r@ == "application/json"@,
{
    "application/json".to_owned()
}

/// Why a handler failed: a transport fault or an I/O fault, with the fault's
/// text for the server-side log.
pub enum HandlerError {
    Hyper(String),
    IoError(String),
}

impl HandlerError {
    /// Short kind text for the server-side log.
    pub fn description(&self) -> (r: String)
        ensures
            self matches HandlerError::Hyper(_) ==> r@ == "Hyper Error"@,
            self matches HandlerError::IoError(_) ==> r@ == "IO Error"@,
    {
        match self {
            HandlerError::Hyper(_) => "Hyper Error".to_owned(),
            HandlerError::IoError(_) => "IO Error".to_owned(),
        }
    }

    /// The fault's own text.
    pub fn cause(&self) -> (r: &String)
        ensures
            self matches HandlerError::Hyper(s) ==> r@ == s@,
            self matches HandlerError::IoError(s) ==> r@ == s@,
    {
        match self {
            HandlerError::Hyper(s) => s,
            HandlerError::IoError(s) => s,
        }
    }
}

/// What one handler run produced: a response, or a recoverable failure.
pub type HandlerOutcome = Result<Response, HandlerError>;

} // verus!
