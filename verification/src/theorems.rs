//! What holds of the staking engine over whole runs of operations.

use crate::cep47::{
    add_reward_result, add_reward_state, stake_result, stake_state, withdraw_result,
    withdraw_state, CallContext, State,
};
use crate::data::{balance, can_credit, Config};
use crate::error::{Error, TransferError};
use crate::key::Key;
use crate::uint::{modulus, U256};
use crate::window::{permitted, Operation};
use vstd::prelude::*;

verus! {

/// One call of an operation, with everything that the host hands in: the
/// context, the amounts, and the outcome of the transfer.
pub enum Invocation {
    /// A call of `stake`.
    Stake { ctx: CallContext, amount: U256, transfer: Result<(), TransferError> },
    /// A call of `withdraw`.
    Withdraw { ctx: CallContext, amount: U256, transfer: Result<(), TransferError> },
    /// A call of `add_reward`.
    AddReward {
        ctx: CallContext,
        reward_amount: U256,
        withdrawable_amount: U256,
        transfer: Result<(), TransferError>,
    },
}

/// The state in which initialization leaves the contract: the configuration, an
/// empty ledger and no events.
pub open spec fn initial(config: Config) -> State {
    State { config, ledger: Map::empty(), events: Seq::empty() }
}

/// The state after one call.
pub open spec fn step(s: State, call: Invocation) -> State {
    match call {
        Invocation::Stake { ctx, amount, transfer } => stake_state(s, ctx, amount, transfer),
        Invocation::Withdraw { ctx, amount, transfer } => withdraw_state(s, ctx, amount, transfer),
        Invocation::AddReward { ctx, reward_amount, withdrawable_amount, transfer } => {
            add_reward_state(s, ctx, reward_amount, withdrawable_amount, transfer)
        },
    }
}

/// The state after a run of calls, made one after the other.
pub open spec fn run(s: State, calls: Seq<Invocation>) -> State
    decreases calls.len(),
{
    if calls.len() == 0 {
        s
    } else {
        step(run(s, calls.drop_last()), calls.last())
    }
}

/// No call changes the configuration, and no call takes an event back.
pub proof fn lemma_step_keeps_config_and_events(s: State, call: Invocation)
    ensures
        step(s, call).config == s.config,
        s.events.is_prefix_of(step(s, call).events),
{
}

/// A call leaves a valid state valid: whatever is asked, and however the
/// transfer ends, every stake stays an amount between zero and the largest
/// amount of 256 bits.
pub proof fn lemma_step_keeps_valid(s: State, call: Invocation)
    requires
        s.valid(),
    ensures
        step(s, call).valid(),
{
    let after = step(s, call);
    assert forall|account: Key| 0 <= #[trigger] balance(after.ledger, account) < modulus() by {
        assert(0 <= balance(s.ledger, account) < modulus());
        match call {
            Invocation::Stake { ctx, amount, transfer } => {
                assert(0 <= balance(s.ledger, ctx.caller) < modulus());
            },
            Invocation::Withdraw { ctx, amount, transfer } => {
                assert(0 <= balance(s.ledger, ctx.caller) < modulus());
            },
            Invocation::AddReward { .. } => {},
        }
    }
}

/// No run of calls drives a stake below zero: from a valid state, and so from
/// the state that initialization leaves, every account's stake is at least zero
/// after any calls whatever.
pub proof fn lemma_stakes_never_negative(s: State, calls: Seq<Invocation>, account: Key)
    requires
        s.valid(),
    ensures
        run(s, calls).valid(),
        balance(run(s, calls).ledger, account) >= 0,
    decreases calls.len(),
{
    if calls.len() > 0 {
        lemma_stakes_never_negative(s, calls.drop_last(), account);
        lemma_step_keeps_valid(run(s, calls.drop_last()), calls.last());
    }
    assert(0 <= balance(run(s, calls).ledger, account) < modulus());
}

/// The state that initialization leaves is valid where the windows are in
/// order, and every stake in it is zero.
pub proof fn lemma_initial_valid(config: Config, account: Key)
    requires
        config.windows_in_order(),
    ensures
        initial(config).valid(),
        balance(initial(config).ledger, account) == 0,
{
}

/// A stake that succeeds, followed by a withdrawal of the same amount by the
/// same caller while staking is still open, restores what every account had
/// staked before: the withdrawal succeeds where its transfer does, and then no
/// stake differs from what it was.
pub proof fn lemma_stake_then_withdraw_restores(
    s: State,
    staking: CallContext,
    withdrawing: CallContext,
    amount: U256,
    paid_in: Result<(), TransferError>,
    paid_out: Result<(), TransferError>,
)
    requires
        s.valid(),
        stake_result(s, staking, amount, paid_in) is Ok,
        withdrawing.caller == staking.caller,
        permitted(s.config, Operation::Staking, withdrawing.blocktime),
        paid_out is Ok,
    ensures
        withdraw_result(stake_state(s, staking, amount, paid_in), withdrawing, amount, paid_out)
            == Ok::<U256, Error>(amount),
        forall|account: Key|
            balance(
                withdraw_state(
                    stake_state(s, staking, amount, paid_in),
                    withdrawing,
                    amount,
                    paid_out,
                ).ledger,
                account,
            ) == balance(s.ledger, account),
{
    assert(0 <= balance(s.ledger, staking.caller) < modulus());
}

/// A funding of rewards whose withdrawable amount exceeds the reward never
/// succeeds. Before the withdraw window starts it fails with
/// `NegativeWithdrawableReward`; from then on with `PermissionDenied`.
pub proof fn lemma_excess_withdrawable_rejected(
    s: State,
    ctx: CallContext,
    reward_amount: U256,
    withdrawable_amount: U256,
    transfer: Result<(), TransferError>,
)
    requires
        withdrawable_amount@ > reward_amount@ > 0,
    ensures
        add_reward_result(s, ctx, reward_amount, withdrawable_amount, transfer) == (if permitted(
            s.config,
            Operation::RewardFunding,
            ctx.blocktime,
        ) {
            Err::<U256, Error>(Error::NegativeWithdrawableReward)
        } else {
            Err::<U256, Error>(Error::PermissionDenied)
        }),
        add_reward_state(s, ctx, reward_amount, withdrawable_amount, transfer) == s,
{
}

/// Staking is open from the start of its window and closed from its end: a stake
/// of at least two units at the start succeeds where the new stake fits and the
/// transfer succeeds, and at the end it is rejected with `BadTiming`.
pub proof fn lemma_stake_at_window_boundaries(
    s: State,
    ctx: CallContext,
    amount: U256,
    transfer: Result<(), TransferError>,
)
    requires
        s.valid(),
        amount@ >= 2,
    ensures
        ctx.blocktime == s.config.staking_ends ==> stake_result(s, ctx, amount, transfer) == Err::<
            U256,
            Error,
        >(Error::BadTiming),
        ctx.blocktime == s.config.staking_starts && can_credit(
            s.ledger,
            ctx.caller,
            amount@ as int,
        ) && transfer is Ok ==> stake_result(s, ctx, amount, transfer) == Ok::<U256, Error>(amount),
{
}

/// The least stake is two units: a stake of less is rejected with
/// `NotRequiredStake` whatever else holds, and a stake of two units succeeds
/// where staking is open, the new stake fits and the transfer succeeds.
pub proof fn lemma_least_stake(
    s: State,
    ctx: CallContext,
    amount: U256,
    transfer: Result<(), TransferError>,
)
    ensures
        amount@ < 2 ==> stake_result(s, ctx, amount, transfer) == Err::<U256, Error>(
            Error::NotRequiredStake,
        ),
        amount@ == 2 && permitted(s.config, Operation::Staking, ctx.blocktime) && balance(
            s.ledger,
            ctx.caller,
        ) + 2 < modulus() && transfer is Ok ==> stake_result(s, ctx, amount, transfer) == Ok::<
            U256,
            Error,
        >(amount),
{
}

} // verus!
