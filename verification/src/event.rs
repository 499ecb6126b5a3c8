//! The events that the staking contract records.

use crate::uint::U256;
use vstd::prelude::*;

verus! {

/// A completed state transition.
#[derive(Clone, Copy, Debug, PartialEq, Eq)]
pub enum CEP47Event {
    /// An amount was staked.
    Stake {
        /// The amount that was staked.
        amount: U256,
    },
    /// An amount of principal was withdrawn.
    Withdraw {
        /// The amount that was withdrawn.
        amount: U256,
    },
    /// The reward pool was funded.
    AddReward {
        /// The reward that was added.
        reward_amount: U256,
        /// The part of the reward that may be withdrawn.
        withdrawable_amount: U256,
    },
}

} // verus!
