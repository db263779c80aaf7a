//! The stream types that the event stream can be subscribed to.

use vstd::prelude::*;

verus! {

/// An enumeration of the supported event streams.
#[derive(Clone, Copy, Debug, PartialEq, Eq, Structural)]
pub enum StreamType {
    /// A stream for trade updates.
    TradeUpdates,
}

} // verus!
