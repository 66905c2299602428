//! One observed sample of the meter.

use vstd::prelude::*;
use crate::clock::Timestamp;

verus! {

/// One sample: when it was taken, the power drawn at that moment, and the
/// two cumulative energy registers (zero where a source has none).
#[derive(Clone, Copy, Debug, PartialEq, Eq)]
pub struct MeterReading {
    pub timestamp: Timestamp,
    pub instant_watts: u64,
    pub cumulative_totals: (u64, u64),
}

} // verus!
