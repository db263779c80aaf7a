//! The error types of this crate, and the outside error types that they
//! carry.

use vstd::prelude::*;

use crate::endpoint::ApiMessage;
use crate::endpoint::EndpointError;
use crate::text::append_decimal;
use crate::text::append_str;
use crate::text::decimal;

use http::Error as HttpError;
use hyper::Error as HyperError;
use serde_json::Error as JsonError;
use url::ParseError as UrlParseError;
use websocket_util::tungstenite::Error as WebSocketError;

verus! {

/// The `http` crate's error type, carried as is.
#[verifier::external_type_specification]
#[verifier::external_body]
pub struct ExHttpError(HttpError);

/// The `serde_json` crate's error type, carried as is.
#[verifier::external_type_specification]
#[verifier::external_body]
pub struct ExJsonError(JsonError);

/// The `url` crate's parse error type, carried as is.
#[verifier::external_type_specification]
#[verifier::external_body]
pub struct ExUrlParseError(UrlParseError);

/// The websocket error type, carried as is.
#[verifier::external_type_specification]
#[verifier::external_body]
pub struct ExWebSocketError(WebSocketError);

/// The `hyper` crate's error type, carried as is.
#[verifier::external_type_specification]
#[verifier::external_body]
pub struct ExHyperError(HyperError);

/// An error encountered while issuing a request.
#[derive(Debug)]
pub enum RequestError<E> {
    /// An endpoint reported error.
    Endpoint(E),
    /// An error reported by the `hyper` crate.
    Hyper(HyperError),
}

/// The error type as used by this crate.
#[derive(Debug)]
pub enum Error {
    /// An HTTP related error.
    Http(HttpError),
    /// We encountered an HTTP status that either represents a failure or
    /// is not supported; the status code and the response body.
    HttpStatus(u16, Vec<u8>),
    /// A JSON conversion error.
    Json(JsonError),
    /// An error directly originating in this crate.
    Str(String),
    /// A URL parsing error.
    Url(UrlParseError),
    /// A websocket error.
    WebSocket(WebSocketError),
}

/// The body reported for an API error message: the message's textual
/// form when it could be decoded, the raw body otherwise.
pub open spec fn message_body(message: ApiMessage) -> Seq<u8> {
    match message {
        Ok(m) => vstd::utf8::encode_utf8(m.text()),
        Err(body) => body@,
    }
}

fn message_bytes(message: ApiMessage) -> (r: Vec<u8>)
    ensures
        r@ == message_body(message),
{
    match message {
        Ok(m) => {
            let text = m.to_string();
            vstd::slice::slice_to_vec(text.as_str().as_bytes())
        },
        Err(body) => body,
    }
}

impl Error {
    /// Convert an endpoint reported error into an `Error`.
    ///
    /// Errors tied to an HTTP status become `HttpStatus` errors carrying
    /// the status and the error body.
    pub fn from_endpoint(src: EndpointError) -> (r: Error)
        ensures
            match src {
                EndpointError::Listed(_, status, message) => r matches Error::HttpStatus(s, body)
                    && s == status && body@ == message_body(message),
                EndpointError::UnexpectedStatus(status, message) => r matches Error::HttpStatus(
                    s,
                    body,
                ) && s == status && body@ == message_body(message),
                EndpointError::Http(e) => r == Error::Http(e),
                EndpointError::Conversion(e) => r == Error::Json(e),
            },
    {
        match src {
            EndpointError::Listed(_, status, message) => Error::HttpStatus(
                status,
                message_bytes(message),
            ),
            EndpointError::UnexpectedStatus(status, message) => Error::HttpStatus(
                status,
                message_bytes(message),
            ),
            EndpointError::Http(e) => Error::Http(e),
            EndpointError::Conversion(e) => Error::Json(e),
        }
    }
}

/// The outcome of an operation as a message text, for the outcomes that
/// are either success or an error of this crate.
pub open spec fn outcome(r: Result<(), Error>) -> Option<Result<(), Seq<char>>> {
    match r {
        Ok(()) => Some(Ok(())),
        Err(Error::Str(m)) => Some(Err(m@)),
        Err(_) => None,
    }
}

/// Success is success, an error of this crate is its message, and any
/// other error has no message of this crate.
pub proof fn lemma_outcome(e: Error)
    ensures
        outcome(Ok(())) == Some(Ok::<(), Seq<char>>(())),
        e matches Error::Str(m) ==> outcome(Err(e)) == Some(Err::<(), Seq<char>>(m@)),
        !(e is Str) ==> outcome(Err(e)) is None,
{
}

/// An error of this crate with the given message.
pub fn str_error(text: &str) -> (r: Error)
    ensures
        r matches Error::Str(m) && m@ == text@,
{
    Error::Str(String::from_str(text))
}

/// The `Display` text of an `http` error. Nothing is stated of it: it is
/// whatever that crate writes.
#[verifier::external_body]
fn http_error_text(e: &HttpError) -> String {
    e.to_string()
}

/// The `Display` text of a `serde_json` error. Nothing is stated of it:
/// it is whatever that crate writes.
#[verifier::external_body]
fn json_error_text(e: &JsonError) -> String {
    e.to_string()
}

/// The `Display` text of a URL parse error. Nothing is stated of it: it
/// is whatever the `url` crate writes.
#[verifier::external_body]
fn url_error_text(e: &UrlParseError) -> String {
    e.to_string()
}

/// The `Display` text of a websocket error. Nothing is stated of it: it
/// is whatever `tungstenite` writes.
#[verifier::external_body]
fn websocket_error_text(e: &WebSocketError) -> String {
    e.to_string()
}

/// What `http::StatusCode` writes for a status code (the code and its
/// canonical reason), if the number is a status code at all.
pub uninterp spec fn spec_status_text(status: u16) -> Option<Seq<char>>;

/// The `Display` text of the status code `status`, with
/// `http::StatusCode::from_u16`; `None` where the number is no status
/// code.
#[verifier::external_body]
fn status_text(status: u16) -> (r: Option<String>)
    ensures
        match r {
            Some(t) => spec_status_text(status) == Some(t@),
            None => spec_status_text(status) is None,
        },
{
    http::StatusCode::from_u16(status).ok().map(|s| s.to_string())
}

/// The text that a byte string encodes in UTF-8, with
/// `std::str::from_utf8`; otherwise the `Debug` text of the decoding
/// error, of which nothing is stated.
#[verifier::external_body]
fn utf8_text(bytes: &[u8]) -> (r: Result<String, String>)
    ensures
        r is Ok <==> vstd::utf8::valid_utf8(bytes@),
        r matches Ok(t) ==> t@ == vstd::utf8::decode_utf8(bytes@),
{
    match std::str::from_utf8(bytes) {
        Ok(s) => Ok(String::from(s)),
        Err(e) => Err(format!("{:?}", e)),
    }
}

/// The text a status is written as: that of its status code, or the
/// number for a number that is no status code.
pub open spec fn status_display(status: u16) -> Seq<char> {
    match spec_status_text(status) {
        Some(t) => t,
        None => decimal(status as nat),
    }
}

impl Error {
    /// The text of the error, as the crate displays it: the text of the
    /// carried outside error; for an HTTP status, the status and the body
    /// (as text where it is UTF-8); for an error of this crate, its
    /// message.
    pub fn to_string(&self) -> (r: String)
        ensures
            self matches Error::Str(m) ==> r@ == m@,
            self matches Error::HttpStatus(status, data) ==> ("Received HTTP status: "@
                + status_display(*status) + ": "@).is_prefix_of(r@),
            self matches Error::HttpStatus(status, data) ==> (vstd::utf8::valid_utf8(data@) ==> r@
                == "Received HTTP status: "@ + status_display(*status) + ": "@
                + vstd::utf8::decode_utf8(data@)),
    {
        match self {
            Error::Http(e) => http_error_text(e),
            Error::HttpStatus(status, data) => {
                let mut s = String::new();
                append_str(&mut s, "Received HTTP status: ");
                match status_text(*status) {
                    Some(t) => append_str(&mut s, t.as_str()),
                    None => append_decimal(&mut s, *status as u64),
                }
                append_str(&mut s, ": ");
                let ghost prefix = s@;
                match utf8_text(data.as_slice()) {
                    Ok(t) => append_str(&mut s, t.as_str()),
                    Err(t) => append_str(&mut s, t.as_str()),
                }
                assert(s@.subrange(0, prefix.len() as int) =~= prefix);
                s
            },
            Error::Json(e) => json_error_text(e),
            Error::Str(m) => String::from_str(m.as_str()),
            Error::Url(e) => url_error_text(e),
            Error::WebSocket(e) => websocket_error_text(e),
        }
    }
}

} // verus!
