//! A crate for interacting with the Alpaca API.

use vstd::prelude::*;

pub mod api;
pub mod api_info;
pub mod client;
pub mod data;
pub mod endpoint;
pub mod env;
pub mod error;
pub mod events;
pub mod id;
pub mod requestor;
pub mod text;
pub mod time_util;
pub mod util;

pub use crate::api_info::ApiInfo;
pub use crate::endpoint::ErrorMessage as ApiError;
pub use crate::error::Error;
pub use crate::error::RequestError;

verus! {

} // verus!
