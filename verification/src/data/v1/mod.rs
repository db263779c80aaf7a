//! Definitions for the first version of the Alpaca Data API.

use vstd::prelude::*;

/// Definitions for the retrieval of aggregate bars.
pub mod bars;

/// Definitions for the retrieval of news.
pub mod news;

verus! {

} // verus!
