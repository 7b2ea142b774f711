//! The records that a pair keeps, and the keys under which it keeps them.

use crate::address::Address;
use vstd::prelude::*;

verus! {

/// Fee that a new pair charges, in basis points.
pub const DEFAULT_BASELINE_BPS: u32 = 30;

/// Lowest fee that a new pair allows, in basis points.
pub const DEFAULT_MIN_BPS: u32 = 10;

/// Highest fee that a new pair allows, in basis points.
pub const DEFAULT_MAX_BPS: u32 = 100;

/// The key of each record of a pair.
#[derive(Clone, Copy, Debug, PartialEq, Eq, Structural)]
pub enum DataKey {
    PairStorage,
    FeeState,
    ReentrancyGuard,
}

/// Identity and reserves of a pair.
///
/// `token_0` and `token_1` are the two pooled assets in canonical order.
#[derive(Clone, Copy, Debug, PartialEq, Eq)]
pub struct PairStorage {
    pub factory: Address,
    pub token_0: Address,
    pub token_1: Address,
    pub lp_token: Address,
    pub reserve_0: i128,
    pub reserve_1: i128,
    pub block_timestamp_last: u64,
}

impl PairStorage {
    /// The tokens are in canonical order, and so distinct.
    pub open spec fn wf(self) -> bool {
        self.token_0.precedes(self.token_1)
    }
}

/// Fee bounds of a pair, in basis points.
#[derive(Clone, Copy, Debug, PartialEq, Eq, Structural)]
pub struct FeeState {
    pub baseline_bps: u32,
    pub min_bps: u32,
    pub max_bps: u32,
}

impl FeeState {
    /// The baseline lies within the bounds.
    pub open spec fn wf(self) -> bool {
        self.min_bps <= self.baseline_bps <= self.max_bps
    }

    /// The fee bounds of a new pair.
    pub open spec fn initial_spec() -> FeeState {
        FeeState {
            baseline_bps: DEFAULT_BASELINE_BPS,
            min_bps: DEFAULT_MIN_BPS,
            max_bps: DEFAULT_MAX_BPS,
        }
    }

    /// The fee bounds of a new pair: 30 bps, within 10 and 100.
    pub fn initial() -> (fee_state: FeeState)
        ensures
            fee_state == FeeState::initial_spec(),
            fee_state == (FeeState { baseline_bps: 30, min_bps: 10, max_bps: 100 }),
            fee_state.wf(),
    {
        FeeState {
            baseline_bps: DEFAULT_BASELINE_BPS,
            min_bps: DEFAULT_MIN_BPS,
            max_bps: DEFAULT_MAX_BPS,
        }
    }
}

/// Marks a pair as busy with an operation that must not be re-entered.
#[derive(Clone, Copy, Debug, PartialEq, Eq, Structural)]
pub struct ReentrancyGuard {
    pub locked: bool,
}

} // verus!
