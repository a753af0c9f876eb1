//! Requests as they reach the service, and the responses it answers with.
use crate::headers::{header_append, header_entries, header_insert, header_map};
use crate::text::text_equal;
use hyper::header::HeaderValue;
use hyper::HeaderMap;
use vstd::prelude::*;
use vstd::utf8::*;

verus! {

/// The status of a response that switches to another protocol.
pub const SWITCHING_PROTOCOLS: u16 = 101;

/// The status of a response to a request that went through.
pub const OK: u16 = 200;

/// The status of a response to a malformed request.
pub const BAD_REQUEST: u16 = 400;

/// The status of a response to a request for a resource that does not exist.
pub const NOT_FOUND: u16 = 404;

/// The status of a response to a request whose method is not served.
pub const METHOD_NOT_ALLOWED: u16 = 405;

/// The methods that the service tells apart.
#[derive(Clone, Copy, Debug, PartialEq, Eq, Structural)]
pub enum Method {
    Get,
    Post,
    Options,
    Other,
}

impl Method {
    /// The method of a given name. Method names are case-sensitive.
    pub open spec fn named(name: Seq<char>) -> Method {
        if name == "GET"@ {
            Method::Get
        } else if name == "POST"@ {
            Method::Post
        } else if name == "OPTIONS"@ {
            Method::Options
        } else {
            Method::Other
        }
    }

    /// Reads the name of a method as it stands in a request.
    pub fn from_name(name: &str) -> (method: Method)
        ensures
            method == Method::named(name@),
    {
        if text_equal(name, "GET") {
            Method::Get
        } else if text_equal(name, "POST") {
            Method::Post
        } else if text_equal(name, "OPTIONS") {
            Method::Options
        } else {
            Method::Other
        }
    }
}

/// A request without its body.
pub struct Request {
    pub method: Method,
    pub path: String,
    pub query: Option<String>,
    pub headers: HeaderMap<HeaderValue>,
}

/// What a request holds.
#[verifier::ext_equal]
pub struct RequestView {
    pub method: Method,
    pub path: Seq<char>,
    pub query: Option<Seq<char>>,
    pub headers: Map<Seq<char>, Seq<Seq<u8>>>,
}

/// An optional string, taken by what it holds.
pub open spec fn optional_text(text: Option<String>) -> Option<Seq<char>> {
    match text {
        Some(s) => Some(s@),
        None => None,
    }
}

/// An optional string slice, taken by what it holds.
pub open spec fn optional_str(text: Option<&str>) -> Option<Seq<char>> {
    match text {
        Some(s) => Some(s@),
        None => None,
    }
}

impl View for Request {
    type V = RequestView;

    open spec fn view(&self) -> RequestView {
        RequestView {
            method: self.method,
            path: self.path@,
            query: optional_text(self.query),
            headers: header_entries(self.headers),
        }
    }
}

/// A response with its body.
pub struct Response {
    pub status: u16,
    pub headers: HeaderMap<HeaderValue>,
    pub body: String,
}

/// What a response holds.
#[verifier::ext_equal]
pub struct ResponseView {
    pub status: u16,
    pub headers: Map<Seq<char>, Seq<Seq<u8>>>,
    pub body: Seq<char>,
}

impl View for Response {
    type V = ResponseView;

    open spec fn view(&self) -> ResponseView {
        ResponseView {
            status: self.status,
            headers: header_entries(self.headers),
            body: self.body@,
        }
    }
}

/// The only header field of a bare response: pages of any origin may read it.
pub open spec fn any_origin() -> Map<Seq<char>, Seq<Seq<u8>>> {
    map!["access-control-allow-origin"@ => seq![encode_utf8("*"@)]]
}

/// A response that pages of any origin may read.
pub open spec fn open_response(status: u16, body: Seq<char>) -> ResponseView {
    ResponseView { status, headers: any_origin(), body }
}

/// A response that pages of any origin may read, with a body of a given type.
pub open spec fn typed_response(status: u16, content_type: Seq<char>, body: Seq<char>) -> ResponseView {
    ResponseView {
        status,
        headers: any_origin().insert("content-type"@, seq![encode_utf8(content_type)]),
        body,
    }
}

/// A response without a body, which pages of any origin may read.
pub fn new_response(code: u16) -> (response: Response)
    ensures
        response@ == open_response(code, Seq::empty()),
{
    proof {
        reveal_strlit("access-control-allow-origin");
        reveal_strlit("*");
    }
    let mut headers = header_map();
    header_append(&mut headers, "access-control-allow-origin", "*");
    Response { status: code, headers, body: String::new() }
}

/// An HTML response whose body is still empty.
pub fn new_html_response(code: u16) -> (response: Response)
    ensures
        response@ == typed_response(code, "text/html; charset=utf-8"@, Seq::empty()),
{
    let mut response = new_response(code);
    proof {
        reveal_strlit("content-type");
        reveal_strlit("text/html; charset=utf-8");
    }
    header_insert(&mut response.headers, "content-type", "text/html; charset=utf-8");
    response
}

} // verus!
