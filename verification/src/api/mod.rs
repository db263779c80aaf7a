//! Definitions for the Alpaca trading API.

use vstd::prelude::*;

/// Definitions for the first version of the Alpaca API.
pub mod v1;

/// Definitions for the second version of the Alpaca API.
pub mod v2;

verus! {

/// The request header carrying the key ID.
pub const HDR_KEY_ID: &'static str = "APCA-API-KEY-ID";

/// The request header carrying the secret.
pub const HDR_SECRET: &'static str = "APCA-API-SECRET-KEY";

} // verus!
