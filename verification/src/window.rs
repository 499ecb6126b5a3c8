//! The window policy: which operations the configured times permit, and when.

use crate::data::Config;
use vstd::prelude::*;

verus! {

/// The kinds of operation that the windows gate.
#[derive(Clone, Copy, Debug, PartialEq, Eq, Structural)]
pub enum Operation {
    /// Staking, and the withdrawal of what was staked.
    Staking,
    /// The funding of the reward pool.
    RewardFunding,
}

/// Whether `operation` is permitted at the time `now`. Staking is permitted
/// from the start of the staking window up to, and not at, its end. Reward
/// funding is permitted strictly before the withdraw window starts.
pub open spec fn permitted(config: Config, operation: Operation, now: u64) -> bool {
    match operation {
        Operation::Staking => config.staking_starts <= now && now < config.staking_ends,
        Operation::RewardFunding => now < config.withdraw_starts,
    }
}

/// Whether `operation` is permitted at the time `now`.
pub fn is_permitted(config: &Config, operation: Operation, now: u64) -> (r: bool)
    ensures
        r == permitted(*config, operation, now),
{
    match operation {
        Operation::Staking => config.staking_starts <= now && now < config.staking_ends,
        Operation::RewardFunding => now < config.withdraw_starts,
    }
}

/// While the windows are in order, the staking window is not empty: staking is
/// permitted at its start, and is not at its end.
pub proof fn lemma_staking_window_half_open(config: Config)
    requires
        config.windows_in_order(),
    ensures
        permitted(config, Operation::Staking, config.staking_starts),
        !permitted(config, Operation::Staking, config.staking_ends),
{
}

} // verus!
