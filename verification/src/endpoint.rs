//! The shared description of HTTP endpoints: request methods, the error
//! message that Alpaca reports, and how an HTTP status is evaluated.

use vstd::prelude::*;

use crate::text::append_decimal;
use crate::text::append_str;
use crate::text::decimal;

use http::Error as HttpError;
use serde_json::Error as JsonError;

verus! {

/// The HTTP method of a request.
#[derive(Clone, Copy, Debug, PartialEq, Eq, Structural)]
pub enum Method {
    /// A GET request.
    Get,
    /// A POST request.
    Post,
    /// A PUT request.
    Put,
    /// A PATCH request.
    Patch,
    /// A DELETE request.
    Delete,
}

/// An error message as reported by Alpaca.
#[derive(Clone, Debug, PartialEq)]
pub struct ErrorMessage {
    /// An error code as provided by Alpaca.
    pub code: u64,
    /// A message as provided by Alpaca.
    pub message: String,
}

impl ErrorMessage {
    /// The textual form of the message: the message, then the code in
    /// parentheses.
    pub open spec fn text(self) -> Seq<char> {
        self.message@ + " ("@ + decimal(self.code as nat) + ")"@
    }

    /// Format the message as `{message} ({code})`.
    pub fn to_string(&self) -> (r: String)
        ensures
            r@ == self.text(),
    {
        let mut s = String::new();
        append_str(&mut s, self.message.as_str());
        append_str(&mut s, " (");
        append_decimal(&mut s, self.code);
        append_str(&mut s, ")");
        assert(s@ =~= self.text());
        s
    }
}

/// An error message is written as its message, a space, its code in
/// decimal within parentheses.
pub proof fn lemma_error_message_text(m: ErrorMessage)
    ensures
        m.text() == m.message@ + seq![' ', '('] + decimal(m.code as nat) + seq![')'],
{
    reveal_strlit(" (");
    reveal_strlit(")");
    assert(" ("@ =~= seq![' ', '(']);
    assert(")"@ =~= seq![')']);
}

/// The error body of a failed request: the decoded error message, or
/// the raw body if it could not be decoded.
pub type ApiMessage = Result<ErrorMessage, Vec<u8>>;

/// The kinds of failures that endpoints list for particular HTTP
/// statuses.
#[derive(Clone, Copy, Debug, PartialEq, Eq, Structural)]
pub enum ErrorKind {
    /// Authentication failed for the request.
    AuthenticationFailed,
    /// The rate limit was exceeded, causing the request to be denied.
    RateLimitExceeded,
    /// The requested object was not found.
    NotFound,
    /// The request was not permitted.
    NotPermitted,
    /// Some data in the request was invalid.
    InvalidInput,
    /// The order can no longer be canceled.
    NotCancelable,
    /// The configuration values were invalid.
    InvalidValues,
    /// An argument of the request was invalid.
    InvalidArgument,
    /// There were not enough funds for the request.
    InsufficientFunds,
}

/// An error reported by an endpoint.
#[derive(Debug)]
pub enum EndpointError {
    /// A failure that the endpoint lists for the given HTTP status.
    Listed(ErrorKind, u16, ApiMessage),
    /// An HTTP status not present in the endpoint's definition was
    /// encountered.
    UnexpectedStatus(u16, ApiMessage),
    /// An HTTP related error.
    Http(HttpError),
    /// A conversion (JSON or query) error.
    Conversion(JsonError),
}

/// The position of the first entry for `status` in `errs`, if any.
pub open spec fn listed_index(errs: Seq<(u16, ErrorKind)>, status: u16) -> Option<int>
    decreases errs.len(),
{
    if errs.len() == 0 {
        None
    } else if errs[0].0 == status {
        Some(0)
    } else {
        match listed_index(errs.drop_first(), status) {
            Some(i) => Some(i + 1),
            None => None,
        }
    }
}

/// How an endpoint with the success statuses `ok` and the listed error
/// statuses `errs` evaluates `status`: `Ok(())` means that the body is
/// to be parsed as the endpoint's output.
pub open spec fn evaluation(
    ok: Seq<u16>,
    errs: Seq<(u16, ErrorKind)>,
    status: u16,
    message: ApiMessage,
) -> Result<(), EndpointError> {
    if ok.contains(status) {
        Ok(())
    } else {
        match listed_index(errs, status) {
            Some(i) => Err(EndpointError::Listed(errs[i].1, status, message)),
            None => Err(EndpointError::UnexpectedStatus(status, message)),
        }
    }
}

proof fn lemma_listed_index(errs: Seq<(u16, ErrorKind)>, status: u16, i: int)
    requires
        0 <= i <= errs.len(),
        forall|j: int| 0 <= j < i ==> errs[j].0 != status,
    ensures
        listed_index(errs, status) == (match listed_index(errs.skip(i), status) {
            Some(k) => Some(k + i),
            None => None::<int>,
        }),
    decreases i,
{
    if i > 0 {
        assert(errs.skip(1) =~= errs.drop_first());
        lemma_listed_index(errs.drop_first(), status, i - 1);
        assert(errs.drop_first().skip(i - 1) =~= errs.skip(i));
    } else {
        assert(errs.skip(0) =~= errs);
    }
}

proof fn lemma_listed_index_bound(errs: Seq<(u16, ErrorKind)>, status: u16)
    ensures
        listed_index(errs, status) matches Some(i) ==> 0 <= i < errs.len() && errs[i].0 == status,
    decreases errs.len(),
{
    if errs.len() > 0 {
        lemma_listed_index_bound(errs.drop_first(), status);
    }
}

proof fn lemma_listed_index_first(errs: Seq<(u16, ErrorKind)>, status: u16)
    ensures
        match listed_index(errs, status) {
            Some(i) => 0 <= i < errs.len() && errs[i].0 == status && forall|j: int|
                0 <= j < i ==> errs[j].0 != status,
            None => forall|j: int| 0 <= j < errs.len() ==> errs[j].0 != status,
        },
    decreases errs.len(),
{
    if errs.len() > 0 {
        lemma_listed_index_first(errs.drop_first(), status);
        assert forall|j: int| 1 <= j < errs.len() implies errs[j] == errs.drop_first()[j - 1] by {}
    }
}

/// A status among the success statuses lets the body be read. Any other
/// status fails: with the kind of the first entry listed for it, or as
/// unexpected where none is listed; the status and the message are
/// carried unchanged.
pub proof fn lemma_evaluation(
    ok: Seq<u16>,
    errs: Seq<(u16, ErrorKind)>,
    status: u16,
    message: ApiMessage,
)
    ensures
        ok.contains(status) ==> evaluation(ok, errs, status, message) is Ok,
        !ok.contains(status) ==> (match evaluation(ok, errs, status, message) {
            Err(EndpointError::Listed(kind, s, m)) => s == status && m == message && exists|i: int|
                0 <= i < errs.len() && #[trigger] errs[i] == (status, kind) && forall|j: int|
                    0 <= j < i ==> errs[j].0 != status,
            Err(EndpointError::UnexpectedStatus(s, m)) => s == status && m == message && forall|
                i: int,
            | 0 <= i < errs.len() ==> errs[i].0 != status,
            _ => false,
        }),
{
    lemma_listed_index_first(errs, status);
    if !ok.contains(status) {
        if let Some(i) = listed_index(errs, status) {
            assert(errs[i] == (status, errs[i].1));
        }
    }
}

/// Every endpoint first lists a failed authentication for 401 and an
/// exceeded rate limit for 429, then its own entries; endpoints of the
/// first API version list the exceeded rate limit for 429 alone first.
pub proof fn lemma_listed_defaults(extra: Seq<(u16, ErrorKind)>)
    ensures
        standard_errors(extra).len() == extra.len() + 2,
        standard_errors(extra)[0] == (401u16, ErrorKind::AuthenticationFailed),
        standard_errors(extra)[1] == (429u16, ErrorKind::RateLimitExceeded),
        standard_errors(extra).skip(2) == extra,
        rate_limited_errors(extra).len() == extra.len() + 1,
        rate_limited_errors(extra)[0] == (429u16, ErrorKind::RateLimitExceeded),
        rate_limited_errors(extra).skip(1) == extra,
{
    assert(standard_errors(extra).skip(2) =~= extra);
    assert(rate_limited_errors(extra).skip(1) =~= extra);
}

/// Evaluate an HTTP status against an endpoint's success statuses and
/// listed error statuses.
pub fn evaluate_with(ok: &[u16], errs: &[(u16, ErrorKind)], status: u16, message: ApiMessage) -> (r:
    Result<(), EndpointError>)
    ensures
        r == evaluation(ok@, errs@, status, message),
{
    let mut i: usize = 0;
    while i < ok.len()
        invariant
            i <= ok@.len(),
            forall|j: int| 0 <= j < i ==> ok@[j] != status,
        decreases ok@.len() - i,
    {
        if ok[i] == status {
            assert(ok@.contains(status));
            return Ok(());
        }
        i = i + 1;
    }
    assert(!ok@.contains(status));
    let mut k: usize = 0;
    while k < errs.len()
        invariant
            k <= errs@.len(),
            !ok@.contains(status),
            forall|j: int| 0 <= j < k ==> errs@[j].0 != status,
        decreases errs@.len() - k,
    {
        if errs[k].0 == status {
            proof {
                lemma_listed_index(errs@, status, k as int);
                assert(errs@.skip(k as int)[0] == errs@[k as int]);
                assert(listed_index(errs@.skip(k as int), status) == Some(0int));
            }
            return Err(EndpointError::Listed(errs[k].1, status, message));
        }
        k = k + 1;
    }
    proof {
        lemma_listed_index(errs@, status, k as int);
        assert(errs@.skip(k as int).len() == 0);
    }
    Err(EndpointError::UnexpectedStatus(status, message))
}

/// The error statuses that every endpoint lists before its own: a
/// failed authentication (401) and an exceeded rate limit (429).
pub open spec fn standard_errors(extra: Seq<(u16, ErrorKind)>) -> Seq<(u16, ErrorKind)> {
    seq![(401u16, ErrorKind::AuthenticationFailed), (429u16, ErrorKind::RateLimitExceeded)] + extra
}

/// The error statuses that every endpoint of the first API version
/// lists before its own: an exceeded rate limit (429).
pub open spec fn rate_limited_errors(extra: Seq<(u16, ErrorKind)>) -> Seq<(u16, ErrorKind)> {
    seq![(429u16, ErrorKind::RateLimitExceeded)] + extra
}

/// Evaluate an HTTP status for an endpoint that lists `extra` after the
/// standard error statuses.
pub fn evaluate_standard(ok: &[u16], extra: &[(u16, ErrorKind)], status: u16, message: ApiMessage) -> (r:
    Result<(), EndpointError>)
    ensures
        r == evaluation(ok@, standard_errors(extra@), status, message),
{
    let mut errs: Vec<(u16, ErrorKind)> = Vec::new();
    errs.push((401u16, ErrorKind::AuthenticationFailed));
    errs.push((429u16, ErrorKind::RateLimitExceeded));
    let mut i: usize = 0;
    while i < extra.len()
        invariant
            i <= extra@.len(),
            errs@ == standard_errors(extra@.take(i as int)),
        decreases extra@.len() - i,
    {
        errs.push(extra[i]);
        proof {
            assert(extra@.take(i as int + 1) =~= extra@.take(i as int).push(extra@[i as int]));
            assert(standard_errors(extra@.take(i as int + 1)) =~= standard_errors(
                extra@.take(i as int),
            ).push(extra@[i as int]));
        }
        i = i + 1;
    }
    assert(extra@.take(i as int) =~= extra@);
    evaluate_with(ok, errs.as_slice(), status, message)
}

/// Evaluate an HTTP status for an endpoint of the first API version that
/// lists `extra` after the rate limit status.
pub fn evaluate_rate_limited(ok: &[u16], extra: &[(u16, ErrorKind)], status: u16, message: ApiMessage) -> (r:
    Result<(), EndpointError>)
    ensures
        r == evaluation(ok@, rate_limited_errors(extra@), status, message),
{
    let mut errs: Vec<(u16, ErrorKind)> = Vec::new();
    errs.push((429u16, ErrorKind::RateLimitExceeded));
    let mut i: usize = 0;
    while i < extra.len()
        invariant
            i <= extra@.len(),
            errs@ == rate_limited_errors(extra@.take(i as int)),
        decreases extra@.len() - i,
    {
        errs.push(extra[i]);
        proof {
            assert(extra@.take(i as int + 1) =~= extra@.take(i as int).push(extra@[i as int]));
            assert(rate_limited_errors(extra@.take(i as int + 1)) =~= rate_limited_errors(
                extra@.take(i as int),
            ).push(extra@[i as int]));
        }
        i = i + 1;
    }
    assert(extra@.take(i as int) =~= extra@);
    evaluate_with(ok, errs.as_slice(), status, message)
}

} // verus!
