//! The data feeds that market data can be retrieved from.

use vstd::prelude::*;


verus! {

/// An enumeration of the different supported data feeds.
#[derive(Clone, Copy, Debug, PartialEq, Eq, Structural)]
pub enum Feed {
    /// Use the Investors Exchange (IEX) as the data source.
    ///
    /// This feed is available unconditionally, i.e., with the free and
    /// unlimited plans.
    IEX,
    /// Use CTA (administered by NYSE) and UTP (administered by Nasdaq)
    /// SIPs as the data source.
    ///
    /// This feed is only usable with the unlimited market data plan.
    SIP,
}

} // verus!
