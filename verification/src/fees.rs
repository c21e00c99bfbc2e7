//! The priority-fee schedule returned by the fee oracle.

use vstd::prelude::*;

verus! {

/// The three priority-fee tiers returned by the fee oracle, in
/// micro-lamports per compute unit: very high, high, and medium.
#[derive(Clone, Copy, PartialEq, Eq, Structural, Debug)]
pub struct FeeTiers {
    pub very_high: u64,
    pub high: u64,
    pub medium: u64,
}

impl FeeTiers {
    /// The tier actually used when building the swap transaction:
    /// always the high tier.
    pub fn chosen_fee(&self) -> (r: u64)
        ensures
            r == self.high,
    {
        self.high
    }
}

}
