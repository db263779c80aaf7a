//! Definitions for the retrieval of lists of assets.

use vstd::prelude::*;

use crate::api::v2::asset::Class;
use crate::api::v2::asset::Status;
use crate::endpoint::evaluate_standard;
use crate::endpoint::evaluation;
use crate::endpoint::standard_errors;
use crate::endpoint::ApiMessage;
use crate::endpoint::EndpointError;
use crate::endpoint::ErrorKind;
use crate::endpoint::Method;

verus! {

/// A helper for initializing `ListReq` objects.
#[derive(Clone, Copy, Debug, PartialEq, Eq)]
pub struct ListReqInit {
    /// See `ListReq::status`.
    pub status: Status,
    /// See `ListReq::class`.
    pub class: Class,
}

impl Default for ListReqInit {
    fn default() -> (r: Self)
        ensures
            r.status == Status::Active,
            r.class == Class::UsEquity,
    {
        ListReqInit { status: Status::default(), class: Class::default() }
    }
}

impl ListReqInit {
    /// Create a `ListReq` from a `ListReqInit`.
    pub fn init(self) -> (r: ListReq)
        ensures
            r.status == self.status,
            r.class == self.class,
    {
        ListReq { status: self.status, class: self.class }
    }
}

/// A GET request to be made to the /v2/assets endpoint.
#[derive(Clone, Copy, Debug, PartialEq, Eq)]
pub struct ListReq {
    /// The status of assets to include in the response.
    pub status: Status,
    /// The asset class of which to include assets in the response.
    pub class: Class,
}

/// The representation of a GET request to the /v2/assets endpoint.
#[derive(Clone, Copy, Debug)]
pub struct List;

impl List {
    /// The HTTP method of the request.
    pub fn method() -> (r: Method)
        ensures
            r == Method::Get,
    {
        Method::Get
    }

    /// The path of the request.
    pub fn path(_input: &ListReq) -> (r: String)
        ensures
            r@ == "/v2/assets"@,
    {
        String::from_str("/v2/assets")
    }

    /// Evaluate the HTTP status of a response: 200 carries the assets.
    pub fn evaluate(status: u16, message: ApiMessage) -> (r: Result<(), EndpointError>)
        ensures
            r == evaluation(seq![200u16], standard_errors(seq![]), status, message),
    {
        let ok = [200u16];
        let errs: [(u16, ErrorKind); 0] = [];
        proof {
            assert(ok@ =~= seq![200u16]);
            assert(errs@ =~= Seq::<(u16, ErrorKind)>::empty());
        }
        evaluate_standard(&ok, &errs, status, message)
    }
}

} // verus!
