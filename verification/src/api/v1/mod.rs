//! Definitions for the first version of the Alpaca trading API.

use vstd::prelude::*;

/// Definitions for the retrieval of account information.
pub mod account;

/// Definitions surrounding assets.
pub mod asset;

/// Definitions for orders.
pub mod order;

/// Definitions for listing orders.
pub mod orders;

/// Definitions for positions.
pub mod position;

/// Definitions for listing positions.
pub mod positions;

verus! {

} // verus!
