//! The HTTP requests that the client sends, as plain values, and their
//! conversion into `hyper` requests.
use vstd::prelude::*;
use vstd::string::*;
use vstd::utf8::*;
use crate::error::RixError;

verus! {

/// `hyper::Request`, carried through unopened.
#[verifier::external_type_specification]
#[verifier::external_body]
#[verifier::reject_recursive_types(T)]
pub struct ExHyperRequest<T>(hyper::Request<T>);

/// `hyper::Body`, carried through unopened.
#[verifier::external_type_specification]
#[verifier::external_body]
pub struct ExHyperBody(hyper::Body);

/// The HTTP methods that the client uses.
#[derive(Debug, Clone, Copy, PartialEq, Eq, Structural)]
pub enum Method {
    Get,
    Post,
    Put,
}

/// The headers that a request carries besides those hyper adds itself.
#[derive(Debug)]
pub enum Headers {
    /// No header.
    Bare,
    /// `Content-Type`.
    ContentType(String),
    /// `Content-Type`, then `Content-Length`.
    ContentTypeAndLength(String, usize),
}

/// One request to the homeserver.
#[derive(Debug)]
pub struct HttpRequest {
    pub method: Method,
    pub uri: String,
    pub headers: Headers,
    pub body: Vec<u8>,
}

/// Which call a request belongs to; it decides the words of the error
/// that a request hyper refuses becomes.
#[derive(Debug, Clone, Copy, PartialEq, Eq, Structural)]
pub enum Endpoint {
    Whoami,
    Upload,
    SendMessage,
    Sync,
}

/// Whether `http` accepts `uri` as the URI of a request (`Uri::try_from`
/// on a `&str`).
pub uninterp spec fn http_uri_accepted(uri: Seq<char>) -> bool;

/// The bytes that `http` accepts in a header value given as text: tab and
/// every byte from 32 up but 127.
pub open spec fn header_value_accepted(value: Seq<char>) -> bool {
    forall|i: int|
        0 <= i < encode_utf8(value).len() ==> {
            let b = #[trigger] encode_utf8(value)[i];
            (b >= 32 && b != 127) || b == 9
        }
}

/// The content type a request carries, if any.
pub open spec fn content_type_of(h: Headers) -> Option<Seq<char>> {
    match h {
        Headers::Bare => None,
        Headers::ContentType(t) => Some(t@),
        Headers::ContentTypeAndLength(t, _) => Some(t@),
    }
}

/// The content length a request declares, if any.
pub open spec fn content_length_of(h: Headers) -> Option<usize> {
    match h {
        Headers::ContentTypeAndLength(_, n) => Some(n),
        _ => None,
    }
}

/// The hyper request that hyper's builder makes from a method, a URI, an
/// optional `Content-Type`, an optional `Content-Length` (set after the
/// type) and a body.
pub uninterp spec fn built_request(
    method: Method,
    uri: Seq<char>,
    content_type: Option<Seq<char>>,
    length: Option<usize>,
    body: Seq<u8>,
) -> hyper::Request<hyper::Body>;

/// Whether hyper builds the request: its URI parses and its content type,
/// if any, is a valid header value.
pub open spec fn request_accepted(req: HttpRequest) -> bool {
    &&& http_uri_accepted(req.uri@)
    &&& match content_type_of(req.headers) {
        Some(t) => header_value_accepted(t),
        None => true,
    }
}

/// The `Debug` text of the error that hyper's builder records for a
/// request it refuses: the error of the URI when the URI does not parse,
/// else that of the content type.
pub uninterp spec fn refusal_text(uri: Seq<char>, content_type: Option<Seq<char>>) -> Seq<char>;

/// The words that open the error for a request hyper refuses.
pub open spec fn construction_error_prefix(e: Endpoint) -> Seq<char> {
    match e {
        Endpoint::Whoami => "Failed to construct whoami request: "@,
        Endpoint::Upload => "Failed to construct request: "@,
        Endpoint::SendMessage => "Failed to construct request: "@,
        Endpoint::Sync => "Unable to create request: "@,
    }
}

/// `hyper::Request::{get, post, put}(uri).body(body)` with no header. By
/// the source of `http`'s builder, it fails exactly when the URI does
/// not parse; the request it builds is named `built_request`.
#[verifier::external_body]
fn hyper_request_bare(method: Method, uri: &str, body: Vec<u8>) -> (res: Result<hyper::Request<hyper::Body>, String>)
    ensures
        res is Ok <==> http_uri_accepted(uri@),
        res matches Ok(r) ==> r == built_request(method, uri@, None, None, body@),
        res matches Err(t) ==> t@ == refusal_text(uri@, None),
{
    let builder = match method {
        Method::Get => hyper::Request::get(uri),
        Method::Post => hyper::Request::post(uri),
        Method::Put => hyper::Request::put(uri),
    };
    let mut builder = builder;
    builder.body(hyper::Body::from(body)).map_err(|e| format!("{:?}", e))
}

/// As `hyper_request_bare`, with a `Content-Type` header: by the source,
/// the header fails exactly when one of its bytes is not a valid header
/// byte. The request it builds is named `built_request`.
#[verifier::external_body]
fn hyper_request_typed(method: Method, uri: &str, content_type: &str, body: Vec<u8>) -> (res: Result<hyper::Request<hyper::Body>, String>)
    ensures
        res is Ok <==> (http_uri_accepted(uri@) && header_value_accepted(content_type@)),
        res matches Ok(r) ==> r == built_request(method, uri@, Some(content_type@), None, body@),
        res matches Err(t) ==> t@ == refusal_text(uri@, Some(content_type@)),
{
    let mut builder = match method {
        Method::Get => hyper::Request::get(uri),
        Method::Post => hyper::Request::post(uri),
        Method::Put => hyper::Request::put(uri),
    };
    builder.header(hyper::header::CONTENT_TYPE, content_type).body(hyper::Body::from(body)).map_err(
        |e| format!("{:?}", e),
    )
}

/// As `hyper_request_typed`, then a `Content-Length` header: a number is
/// always a valid header value, so it adds no way to fail. The request it
/// builds is named `built_request`.
#[verifier::external_body]
fn hyper_request_typed_sized(
    method: Method,
    uri: &str,
    content_type: &str,
    length: usize,
    body: Vec<u8>,
) -> (res: Result<hyper::Request<hyper::Body>, String>)
    ensures
        res is Ok <==> (http_uri_accepted(uri@) && header_value_accepted(content_type@)),
        res matches Ok(r) ==> r == built_request(
            method,
            uri@,
            Some(content_type@),
            Some(length),
            body@,
        ),
        res matches Err(t) ==> t@ == refusal_text(uri@, Some(content_type@)),
{
    let mut builder = match method {
        Method::Get => hyper::Request::get(uri),
        Method::Post => hyper::Request::post(uri),
        Method::Put => hyper::Request::put(uri),
    };
    builder.header(hyper::header::CONTENT_TYPE, content_type).header(
        hyper::header::CONTENT_LENGTH,
        length,
    ).body(hyper::Body::from(body)).map_err(|e| format!("{:?}", e))
}

/// The opening words of the construction error of an endpoint.
fn construction_error_words(endpoint: Endpoint) -> (s: &'static str)
    ensures
        s@ == construction_error_prefix(endpoint),
{
    match endpoint {
        Endpoint::Whoami => "Failed to construct whoami request: ",
        Endpoint::Upload => "Failed to construct request: ",
        Endpoint::SendMessage => "Failed to construct request: ",
        Endpoint::Sync => "Unable to create request: ",
    }
}

/// Builds the hyper request for `req`: the one hyper's builder makes from
/// its method, URI, headers and body. It succeeds exactly when hyper
/// accepts the request; otherwise the error is `Other`: the words of the
/// endpoint followed by hyper's text for its refusal.
pub fn prepare(req: HttpRequest, endpoint: Endpoint) -> (res: Result<
    hyper::Request<hyper::Body>,
    RixError,
>)
    ensures
        res is Ok <==> request_accepted(req),
        res matches Ok(r) ==> r == built_request(
            req.method,
            req.uri@,
            content_type_of(req.headers),
            content_length_of(req.headers),
            req.body@,
        ),
        res matches Err(e) ==> crate::error::is_other(
            e,
            construction_error_prefix(endpoint) + refusal_text(
                req.uri@,
                content_type_of(req.headers),
            ),
        ),
{
    let HttpRequest { method, uri, headers, body } = req;
    let built = match headers {
        Headers::Bare => hyper_request_bare(method, uri.as_str(), body),
        Headers::ContentType(t) => hyper_request_typed(method, uri.as_str(), t.as_str(), body),
        Headers::ContentTypeAndLength(t, n) => hyper_request_typed_sized(
            method,
            uri.as_str(),
            t.as_str(),
            n,
            body,
        ),
    };
    match built {
        Ok(r) => Ok(r),
        Err(detail) => {
            let mut msg = String::from_str(construction_error_words(endpoint));
            msg.append(detail.as_str());
            Err(RixError::Other(msg))
        },
    }
}

} // verus!
