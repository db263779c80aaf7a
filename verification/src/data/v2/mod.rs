//! Definitions for the second version of the Alpaca Data API.

use vstd::prelude::*;

/// Definitions for the retrieval of historic aggregate bars.
pub mod bars;

/// The data feeds that market data can be retrieved from.
pub mod feed;

/// Definitions for the retrieval of the latest quote of a symbol.
pub mod last_quote;

/// Definitions for the retrieval of the latest quotes of several symbols.
pub mod last_quotes;

/// Definitions for the retrieval of the latest trades of symbols.
pub mod last_trade;

/// Definitions for the retrieval of historic quotes.
pub mod quotes;

/// Definitions for real-time streaming of market data.
pub mod stream;

/// Unfolding of batches of messages into single messages.
pub mod unfold;

pub use crate::data::v2::feed::Feed;

verus! {

} // verus!
