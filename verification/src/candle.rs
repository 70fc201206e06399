//! A plain market-data record for hosts that do not bring their own.
//!
//! The dispatch core itself is generic over the candle type and never reads
//! its fields; this concrete record is what the bundled example indicator
//! computes on, and what the tests feed through the core.

use vstd::prelude::*;

verus! {

/// One market observation, with prices carried as plain integers (for
/// example, in the smallest currency unit).
#[derive(Clone, Copy, Debug, PartialEq, Eq, Structural)]
pub struct Candle {
    /// Highest traded price of the interval.
    pub high: i64,
    /// Lowest traded price of the interval.
    pub low: i64,
    /// Last traded price of the interval.
    pub close: i64,
}

} // verus!
