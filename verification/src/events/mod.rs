//! Definitions for the event streams of the trading API.

use vstd::prelude::*;

/// The stream types that can be subscribed to.
pub mod handshake;

/// Establishing the websocket connection of an event stream.
pub mod stream;

pub use crate::events::handshake::StreamType;

verus! {

} // verus!
