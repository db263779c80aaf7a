//! Definitions for listing watchlists.

use vstd::prelude::*;

use crate::api::v2::account;
use crate::api::v2::watchlist;
use crate::time_util::Timestamp;
use crate::endpoint::evaluate_standard;
use crate::endpoint::standard_errors;
use crate::endpoint::evaluation;
use crate::endpoint::ApiMessage;
use crate::endpoint::EndpointError;
use crate::endpoint::ErrorKind;
use crate::endpoint::Method;

verus! {

/// A watchlist item.
#[derive(Clone, Copy, Debug, PartialEq, Eq, Structural)]
pub struct WatchlistListItem {
    /// The watchlist's ID.
    pub id: watchlist::Id,
    /// The account's ID.
    pub account_id: account::Id,
    /// Creation time.
    pub created_at: Timestamp,
    /// Last update time.
    pub updated_at: Timestamp,
}

/// The representation of a GET request to the /v2/watchlists endpoint.
#[derive(Clone, Copy, Debug)]
pub struct Get;

impl Get {
    /// The HTTP method of the request.
    pub fn method() -> (r: Method)
        ensures
            r == Method::Get,
    {
        Method::Get
    }

    /// The path of the request.
    pub fn path(_input: &()) -> (r: String)
        ensures
            r@ == "/v2/watchlists"@,
    {
        String::from_str("/v2/watchlists")
    }

    /// Evaluate the HTTP status of a response: 200 carries the watchlists.
    pub fn evaluate(status: u16, message: ApiMessage) -> (r: Result<(), EndpointError>)
        ensures
            r == evaluation(seq![200u16], standard_errors(seq![]), status, message),
    {
        let ok = [200u16];
        let errs: [(u16, ErrorKind); 0] = [];
        proof {
            assert(ok@ =~= seq![200u16]);
            assert(errs@ =~= Seq::<(u16, ErrorKind)>::empty());
        }
        evaluate_standard(&ok, &errs, status, message)
    }
}

} // verus!
