//! Definitions for listing orders.

use vstd::prelude::*;

use crate::endpoint::evaluate_standard;
use crate::endpoint::standard_errors;
use crate::endpoint::evaluation;
use crate::endpoint::ApiMessage;
use crate::endpoint::EndpointError;
use crate::endpoint::ErrorKind;
use crate::endpoint::Method;

verus! {

/// The status of orders to list.
#[derive(Clone, Copy, Debug, PartialEq, Eq, Structural)]
pub enum Status {
    /// List open orders only.
    Open,
    /// List closed orders only.
    Closed,
    /// List all orders.
    All,
}

/// A GET request to be made to the /v2/orders endpoint.
#[derive(Clone, Copy, Debug, PartialEq, Eq, Structural)]
pub struct OrdersReq {
    /// The status of orders to list.
    pub status: Status,
    /// The maximum number of orders in response. Defaults to 50 and max
    /// is 500.
    pub limit: u64,
    /// If false the result will not roll up multi-leg orders under the
    /// legs field of the primary order.
    pub nested: bool,
}

impl Default for OrdersReq {
    /// Open orders, at most 50 of them, with their legs nested.
    fn default() -> (r: Self)
        ensures
            r == (OrdersReq { status: Status::Open, limit: 50, nested: true }),
    {
        OrdersReq { status: Status::Open, limit: 50, nested: true }
    }
}

/// The representation of a GET request to the /v2/orders endpoint, with
/// the orders request in the query.
#[derive(Clone, Copy, Debug)]
pub struct Get;

impl Get {
    /// The HTTP method of the request.
    pub fn method() -> (r: Method)
        ensures
            r == Method::Get,
    {
        Method::Get
    }

    /// The path of the request.
    pub fn path(_input: &OrdersReq) -> (r: String)
        ensures
            r@ == "/v2/orders"@,
    {
        String::from_str("/v2/orders")
    }

    /// Evaluate the HTTP status of a response: 200 carries the orders.
    pub fn evaluate(status: u16, message: ApiMessage) -> (r: Result<(), EndpointError>)
        ensures
            r == evaluation(seq![200u16], standard_errors(seq![]), status, message),
    {
        let ok = [200u16];
        let errs: [(u16, ErrorKind); 0] = [];
        proof {
            assert(ok@ =~= seq![200u16]);
            assert(errs@ =~= Seq::<(u16, ErrorKind)>::empty());
        }
        evaluate_standard(&ok, &errs, status, message)
    }
}

} // verus!
