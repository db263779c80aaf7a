//! Definitions for retrieving market data.

use vstd::prelude::*;

/// Definitions for the first version of the Alpaca Data API.
pub mod v1;

/// Definitions for the second version of the Alpaca Data API.
pub mod v2;

verus! {

} // verus!
