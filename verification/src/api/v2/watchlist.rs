//! Definitions for the creation, retrieval, update, and deletion of
//! watchlists.

use vstd::prelude::*;

use crate::api::v2::account;
use crate::api::v2::asset;
use crate::id::append_simple;
use crate::id::uuid_simple;
use crate::text::append_str;
use crate::time_util::Timestamp;
use crate::endpoint::evaluate_standard;
use crate::endpoint::standard_errors;
use crate::endpoint::evaluation;
use crate::endpoint::ApiMessage;
use crate::endpoint::EndpointError;
use crate::endpoint::ErrorKind;
use crate::endpoint::Method;

verus! {

/// An ID uniquely identifying a watchlist.
#[derive(Clone, Copy, Debug, PartialEq, Eq, Hash, Structural)]
pub struct Id(pub u128);

/// A watchlist.
#[derive(Debug, PartialEq, Eq)]
pub struct Watchlist {
    /// The watchlist's ID.
    pub id: Id,
    /// The watchlist's user-defined name.
    pub name: String,
    /// The account's ID.
    pub account_id: account::Id,
    /// Timestamp this watchlist was created at.
    pub created_at: Timestamp,
    /// Timestamp this watchlist was last updated at.
    pub updated_at: Timestamp,
    /// The list of watched assets.
    pub assets: Vec<asset::Asset>,
}

/// A create or update request for a watchlist.
#[derive(Clone, Debug, PartialEq, Eq)]
pub struct CreateReq {
    /// The watchlist's name.
    pub name: String,
    /// The symbols to watch.
    pub symbols: Vec<String>,
}

/// An update request for a watchlist.
pub type UpdateReq = CreateReq;

/// The representation of a POST request to the /v2/watchlists endpoint,
/// with the create request as the body.
#[derive(Clone, Copy, Debug)]
pub struct Post;

impl Post {
    /// The HTTP method of the request.
    pub fn method() -> (r: Method)
        ensures
            r == Method::Post,
    {
        Method::Post
    }

    /// The path of the request.
    pub fn path(_input: &CreateReq) -> (r: String)
        ensures
            r@ == "/v2/watchlists"@,
    {
        String::from_str("/v2/watchlists")
    }

    /// Evaluate the HTTP status of a response: 200 carries the watchlist; the name was not unique
    /// or other parts of the input were invalid on 422.
    pub fn evaluate(status: u16, message: ApiMessage) -> (r: Result<(), EndpointError>)
        ensures
            r == evaluation(seq![200u16], standard_errors(seq![(422u16, ErrorKind::InvalidInput)]), status, message),
    {
        let ok = [200u16];
        let errs = [(422u16, ErrorKind::InvalidInput)];
        proof {
            assert(ok@ =~= seq![200u16]);
            assert(errs@ =~= seq![(422u16, ErrorKind::InvalidInput)]);
        }
        evaluate_standard(&ok, &errs, status, message)
    }
}

/// The representation of a GET request to the
/// /v2/watchlists/{watchlist-id} endpoint.
#[derive(Clone, Copy, Debug)]
pub struct Get;

impl Get {
    /// The HTTP method of the request.
    pub fn method() -> (r: Method)
        ensures
            r == Method::Get,
    {
        Method::Get
    }

    /// The path of the request.
    pub fn path(input: &Id) -> (r: String)
        ensures
            r@ == "/v2/watchlists/"@ + uuid_simple(input.0),
    {
        let mut s = String::new();
        append_str(&mut s, "/v2/watchlists/");
        append_simple(&mut s, input.0);
        s
    }

    /// Evaluate the HTTP status of a response: 200 carries the watchlist; no watchlist exists with the
    /// ID on 404.
    pub fn evaluate(status: u16, message: ApiMessage) -> (r: Result<(), EndpointError>)
        ensures
            r == evaluation(seq![200u16], standard_errors(seq![(404u16, ErrorKind::NotFound)]), status, message),
    {
        let ok = [200u16];
        let errs = [(404u16, ErrorKind::NotFound)];
        proof {
            assert(ok@ =~= seq![200u16]);
            assert(errs@ =~= seq![(404u16, ErrorKind::NotFound)]);
        }
        evaluate_standard(&ok, &errs, status, message)
    }
}

/// The representation of a PUT request to the
/// /v2/watchlists/{watchlist-id} endpoint, with the update request as
/// the body.
#[derive(Clone, Copy, Debug)]
pub struct Update;

impl Update {
    /// The HTTP method of the request.
    pub fn method() -> (r: Method)
        ensures
            r == Method::Put,
    {
        Method::Put
    }

    /// The path of the request.
    pub fn path(input: &(Id, UpdateReq)) -> (r: String)
        ensures
            r@ == "/v2/watchlists/"@ + uuid_simple((input.0).0),
    {
        let mut s = String::new();
        append_str(&mut s, "/v2/watchlists/");
        append_simple(&mut s, (input.0).0);
        s
    }

    /// Evaluate the HTTP status of a response: 200 carries the watchlist; no watchlist exists with
    /// the ID on 404; the input was invalid on 422.
    pub fn evaluate(status: u16, message: ApiMessage) -> (r: Result<(), EndpointError>)
        ensures
            r == evaluation(seq![200u16], standard_errors(seq![(404u16, ErrorKind::NotFound), (422u16, ErrorKind::InvalidInput)]), status, message),
    {
        let ok = [200u16];
        let errs = [(404u16, ErrorKind::NotFound), (422u16, ErrorKind::InvalidInput)];
        proof {
            assert(ok@ =~= seq![200u16]);
            assert(errs@ =~= seq![(404u16, ErrorKind::NotFound), (422u16, ErrorKind::InvalidInput)]);
        }
        evaluate_standard(&ok, &errs, status, message)
    }
}

/// The representation of a DELETE request to the
/// /v2/watchlists/{watchlist-id} endpoint.
#[derive(Clone, Copy, Debug)]
pub struct Delete;

impl Delete {
    /// The HTTP method of the request.
    pub fn method() -> (r: Method)
        ensures
            r == Method::Delete,
    {
        Method::Delete
    }

    /// The path of the request.
    pub fn path(input: &Id) -> (r: String)
        ensures
            r@ == "/v2/watchlists/"@ + uuid_simple(input.0),
    {
        let mut s = String::new();
        append_str(&mut s, "/v2/watchlists/");
        append_simple(&mut s, input.0);
        s
    }

    /// Evaluate the HTTP status of a response: the watchlist was deleted on 204, and the (empty) body
    /// carries nothing; no watchlist exists with the ID on 404.
    pub fn evaluate(status: u16, message: ApiMessage) -> (r: Result<(), EndpointError>)
        ensures
            r == evaluation(seq![204u16], standard_errors(seq![(404u16, ErrorKind::NotFound)]), status, message),
    {
        let ok = [204u16];
        let errs = [(404u16, ErrorKind::NotFound)];
        proof {
            assert(ok@ =~= seq![204u16]);
            assert(errs@ =~= seq![(404u16, ErrorKind::NotFound)]);
        }
        evaluate_standard(&ok, &errs, status, message)
    }
}

} // verus!
