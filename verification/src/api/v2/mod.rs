//! Definitions for the second version of the Alpaca trading API.

use vstd::prelude::*;

/// Definitions for the retrieval of account information.
pub mod account;

/// Definitions for the retrieval of account activities.
pub mod account_activities;

/// Definitions for the account configuration.
pub mod account_config;

/// Definitions surrounding assets.
pub mod asset;

/// Definitions for retrieval of assets.
pub mod assets;

/// Definitions for the market calendar.
pub mod calendar;

/// Definitions for the market clock.
pub mod clock;

/// Definitions of the events of the trading event stream.
pub mod events;

/// Definitions for order submission, change, and cancellation.
pub mod order;

/// Definitions for listing orders.
pub mod orders;

/// Definitions for the retrieval and liquidation of positions.
pub mod position;

/// Definitions for listing the open positions.
pub mod positions;

/// Definitions for the stream of order updates.
pub mod updates;

/// Reading and writing unsigned integers sent as strings.
pub mod util;

/// Definitions for watchlists.
pub mod watchlist;

/// Definitions for listing watchlists.
pub mod watchlists;

verus! {

} // verus!
