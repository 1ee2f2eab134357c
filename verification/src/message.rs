//! Requests and responses as plain values, and the responses that the
//! gateway composes itself.

use vstd::prelude::*;
use vstd::string::StringSliceAdditionalSpecFns;
use crate::headers::{with_only, without, Entries, HeaderMap};

verus! {

/// The mathematical model of a request.
pub struct RequestView {
    pub method: Seq<char>,
    pub path: Seq<char>,
    pub query: Option<Seq<char>>,
    pub headers: Entries,
    pub body: Seq<u8>,
}

/// The mathematical model of a response.
pub struct ResponseView {
    pub status: u16,
    pub headers: Entries,
    pub body: Seq<u8>,
}

/// The view of an optional text.
pub open spec fn text_view(text: Option<String>) -> Option<Seq<char>> {
    match text {
        Some(t) => Some(t@),
        None => None,
    }
}

/// A request as it reached the gateway. An empty body stands for none.
#[derive(Clone, Debug, PartialEq, Eq)]
pub struct InboundRequest {
    pub method: String,
    pub path: String,
    pub query: Option<String>,
    pub headers: HeaderMap,
    pub body: Vec<u8>,
}

impl View for InboundRequest {
    type V = RequestView;

    open spec fn view(&self) -> RequestView {
        RequestView {
            method: self.method@,
            path: self.path@,
            query: text_view(self.query),
            headers: self.headers@,
            body: self.body@,
        }
    }
}

/// A request that the gateway sends to one of its backends.
#[derive(Clone, Debug, PartialEq, Eq)]
pub struct BackendRequest {
    pub method: String,
    pub path: String,
    pub query: Option<String>,
    pub headers: HeaderMap,
    pub body: Vec<u8>,
}

impl View for BackendRequest {
    type V = RequestView;

    open spec fn view(&self) -> RequestView {
        RequestView {
            method: self.method@,
            path: self.path@,
            query: text_view(self.query),
            headers: self.headers@,
            body: self.body@,
        }
    }
}

/// What a backend answered.
#[derive(Clone, Debug, PartialEq, Eq)]
pub struct BackendResponse {
    pub status: u16,
    pub headers: HeaderMap,
    pub body: Vec<u8>,
}

impl View for BackendResponse {
    type V = ResponseView;

    open spec fn view(&self) -> ResponseView {
        ResponseView { status: self.status, headers: self.headers@, body: self.body@ }
    }
}

/// What the gateway answers to the client.
#[derive(Clone, Debug, PartialEq, Eq)]
pub struct OutboundResponse {
    pub status: u16,
    pub headers: HeaderMap,
    pub body: Vec<u8>,
}

impl View for OutboundResponse {
    type V = ResponseView;

    open spec fn view(&self) -> ResponseView {
        ResponseView { status: self.status, headers: self.headers@, body: self.body@ }
    }
}

/// The failures that reach the client as an error response.
#[derive(Clone, Copy, Debug, PartialEq, Eq, Structural)]
pub enum GatewayError {
    /// The request carries no token.
    MissingCredential,
    /// The token was refused, for whatever reason.
    InvalidToken,
    /// The master secret or the API key is absent, empty or undecodable.
    Configuration,
    /// Anything else that went wrong inside the gateway.
    Internal,
}

/// A status from 200 to 299.
pub open spec fn is_success(status: u16) -> bool {
    200 <= status <= 299
}

/// The status of an error response.
pub open spec fn error_status(error: GatewayError) -> u16 {
    match error {
        GatewayError::MissingCredential => 401,
        GatewayError::InvalidToken => 401,
        GatewayError::Configuration => 500,
        GatewayError::Internal => 500,
    }
}

/// The fixed text of an error response.
pub open spec fn error_text(error: GatewayError) -> Seq<char> {
    match error {
        GatewayError::MissingCredential => "Missing authorization token.\n"@,
        GatewayError::InvalidToken => "Invalid JWT.\n"@,
        GatewayError::Configuration => "Server configuration error.\n"@,
        GatewayError::Internal => "An internal error occurred.\n"@,
    }
}

/// `response` with the wildcard CORS origin as its only
/// `Access-Control-Allow-Origin` header.
pub open spec fn with_cors(response: ResponseView) -> ResponseView {
    ResponseView {
        headers: with_only(response.headers, "Access-Control-Allow-Origin"@, "*"@),
        ..response
    }
}

/// The answer to a CORS preflight.
pub open spec fn preflight_view() -> ResponseView {
    ResponseView {
        status: 200,
        headers: seq![
            ("Access-Control-Allow-Origin"@, "*"@),
            ("Access-Control-Allow-Methods"@, "GET, HEAD, POST, OPTIONS"@),
            ("Access-Control-Allow-Headers"@, "Content-Type, Authorization, X-API-Key"@),
        ],
        body: Seq::empty(),
    }
}

/// The response for an error: its status, a plain-text body, nothing else.
pub open spec fn error_view(error: GatewayError) -> ResponseView {
    ResponseView {
        status: error_status(error),
        headers: seq![("Content-Type"@, "text/plain; charset=utf-8"@)],
        body: vstd::utf8::encode_utf8(error_text(error)),
    }
}

/// The response that serves the unmodified segment in place of a
/// watermarked one.
pub open spec fn fallback_view(segment: Seq<u8>) -> ResponseView {
    ResponseView { status: 200, headers: seq![("Content-Type"@, "video/mp4"@)], body: segment }
}

/// The response that serves a segment too large to be watermarked.
pub open spec fn plain_view(segment: Seq<u8>) -> ResponseView {
    ResponseView { status: 200, headers: Seq::empty(), body: segment }
}

/// The request to the primary origin for `request`: the same method, path,
/// query and body, without the headers that authenticate the client.
pub open spec fn origin_request_view(request: RequestView) -> RequestView {
    RequestView {
        headers: without(without(request.headers, "Authorization"@), "X-API-Key"@),
        ..request
    }
}

/// Whether a status is one of success.
pub fn status_is_success(status: u16) -> (b: bool)
    ensures
        b == is_success(status),
{
    200 <= status && status <= 299
}

impl GatewayError {
    /// The status that the client sees.
    pub fn status(&self) -> (status: u16)
        ensures
            status == error_status(*self),
    {
        match self {
            GatewayError::MissingCredential => 401,
            GatewayError::InvalidToken => 401,
            GatewayError::Configuration => 500,
            GatewayError::Internal => 500,
        }
    }

    /// The text that the client sees. It never tells which check failed.
    pub fn text(&self) -> (text: &'static str)
        ensures
            text@ == error_text(*self),
    {
        match self {
            GatewayError::MissingCredential => "Missing authorization token.\n",
            GatewayError::InvalidToken => "Invalid JWT.\n",
            GatewayError::Configuration => "Server configuration error.\n",
            GatewayError::Internal => "An internal error occurred.\n",
        }
    }
}

impl OutboundResponse {
    /// The answer to a CORS preflight: status 200 and the three CORS headers.
    pub fn preflight() -> (out: Self)
        ensures
            out@ == preflight_view(),
    {
        let mut headers = HeaderMap::new();
        headers.append("Access-Control-Allow-Origin", "*");
        headers.append("Access-Control-Allow-Methods", "GET, HEAD, POST, OPTIONS");
        headers.append("Access-Control-Allow-Headers", "Content-Type, Authorization, X-API-Key");
        let out = OutboundResponse { status: 200, headers, body: Vec::new() };
        assert(out@.headers =~= preflight_view().headers);
        out
    }

    /// The response for `error`.
    pub fn from_error(error: GatewayError) -> (out: Self)
        ensures
            out@ == error_view(error),
    {
        let mut headers = HeaderMap::new();
        headers.append("Content-Type", "text/plain; charset=utf-8");
        let out = OutboundResponse {
            status: error.status(),
            headers,
            body: error.text().as_bytes_vec(),
        };
        assert(out@.headers =~= error_view(error).headers);
        out
    }

    /// The unmodified segment, served in place of a watermarked one.
    pub fn fallback(segment: Vec<u8>) -> (out: Self)
        ensures
            out@ == fallback_view(segment@),
    {
        let mut headers = HeaderMap::new();
        headers.append("Content-Type", "video/mp4");
        let out = OutboundResponse { status: 200, headers, body: segment };
        assert(out@.headers =~= fallback_view(segment@).headers);
        out
    }

    /// A segment too large to be watermarked, served as it was fetched.
    pub fn plain(segment: Vec<u8>) -> (out: Self)
        ensures
            out@ == plain_view(segment@),
    {
        OutboundResponse { status: 200, headers: HeaderMap::new(), body: segment }
    }

    /// The response of a backend, handed on as it is.
    pub fn from_backend(response: BackendResponse) -> (out: Self)
        ensures
            out@ == response@,
    {
        OutboundResponse { status: response.status, headers: response.headers, body: response.body }
    }

    /// Sets the wildcard CORS origin, the last step for every response.
    pub fn finalize(self) -> (out: Self)
        ensures
            out@ == with_cors(self@),
    {
        let mut out = self;
        out.headers.set("Access-Control-Allow-Origin", "*");
        out
    }
}

impl InboundRequest {
    /// The request to the primary origin: the same method, path, query and
    /// body, stripped of the headers that authenticate the client.
    pub fn into_origin_request(self) -> (out: BackendRequest)
        ensures
            out@ == origin_request_view(self@),
    {
        let mut headers = self.headers;
        headers.remove("Authorization");
        headers.remove("X-API-Key");
        BackendRequest {
            method: self.method,
            path: self.path,
            query: self.query,
            headers,
            body: self.body,
        }
    }
}

} // verus!
