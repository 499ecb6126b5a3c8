//! The staking engine: stake, withdraw and the funding of rewards.
//!
//! The engine owns the configuration, the ledger and the log of events. It moves
//! no asset itself. For each operation one function says which transfer the host
//! has to make, and a second one takes the outcome of that transfer and commits
//! the operation or leaves the engine as it was.

use crate::data;
use crate::data::{
    balance, calling_party, can_credit, can_debit, credit, debit, running_package, Config,
    StakedTokens,
};
use crate::error::{Error, TransferError};
use crate::event::CEP47Event;
use crate::key::{CallStackElement, ContractPackageHash, Key};
use crate::uint::{modulus, U256};
use crate::window::{is_permitted, permitted, Operation};
use vstd::prelude::*;

verus! {

/// What the host knows of one invocation.
#[derive(Clone, Copy, Debug, PartialEq, Eq)]
pub struct CallContext {
    /// The party that invoked the operation.
    pub caller: Key,
    /// The current time.
    pub blocktime: u64,
    /// The package of the contract itself, which holds the staked assets.
    pub package: ContractPackageHash,
}

/// The context of the invocation whose call stack and block time the host
/// reports: the caller is the frame below the top, the package that of the top.
pub open spec fn context_of(call_stack: Seq<CallStackElement>, blocktime: u64) -> Result<
    CallContext,
    Error,
> {
    match (running_package(call_stack), calling_party(call_stack)) {
        (Ok(package), Ok(caller)) => Ok(CallContext { caller, blocktime, package }),
        _ => Err(Error::InvalidContext),
    }
}

impl CallContext {
    /// The context of the invocation whose call stack and block time the host
    /// reports. A stack of fewer than two frames, or one whose top is no stored
    /// contract, is rejected with `InvalidContext`.
    pub fn new(call_stack: &Vec<CallStackElement>, blocktime: u64) -> (r: Result<
        CallContext,
        Error,
    >)
        ensures
            r == context_of(call_stack@, blocktime),
    {
        let package = match data::contract_package_hash(call_stack) {
            Ok(package) => package,
            Err(_) => {
                return Err(Error::InvalidContext);
            },
        };
        let caller = match data::immediate_caller(call_stack) {
            Ok(caller) => caller,
            Err(_) => {
                return Err(Error::InvalidContext);
            },
        };
        Ok(CallContext { caller, blocktime, package })
    }
}

/// A transfer that the host has to ask of the asset's contract.
#[derive(Clone, Copy, Debug, PartialEq, Eq)]
pub enum TransferCall {
    /// Move `amount` from `owner` to `recipient`.
    TransferFrom {
        /// The party that gives.
        owner: Key,
        /// The party that receives.
        recipient: Key,
        /// The amount to move.
        amount: U256,
    },
    /// Move `amount` from the contract's own holdings to `recipient`.
    Transfer {
        /// The party that receives.
        recipient: Key,
        /// The amount to move.
        amount: U256,
    },
}

/// An event as it was recorded: what happened, in which contract, on whose call.
#[derive(Clone, Copy, Debug, PartialEq, Eq)]
pub struct EmittedEvent {
    /// The package of the contract that recorded the event.
    pub package: ContractPackageHash,
    /// The party whose call the event completes.
    pub caller: Key,
    /// What happened.
    pub event: CEP47Event,
}

/// The state of the engine as contracts see it.
pub struct State {
    /// The configuration.
    pub config: Config,
    /// The staked amount of each account that has an entry.
    pub ledger: Map<Key, int>,
    /// The events recorded so far, the oldest first.
    pub events: Seq<EmittedEvent>,
}

impl State {
    /// Whether the windows are in order and every stake is an amount of 256 bits.
    pub open spec fn valid(self) -> bool {
        &&& self.config.windows_in_order()
        &&& forall|account: Key| 0 <= #[trigger] balance(self.ledger, account) < modulus()
    }

    /// The state with one more event, recorded for the call `ctx`.
    pub open spec fn record(self, ctx: CallContext, event: CEP47Event) -> State {
        State {
            events: self.events.push(
                EmittedEvent { package: ctx.package, caller: ctx.caller, event },
            ),
            ..self
        }
    }
}

/// Why a stake of `amount` is rejected before any asset moves, if it is: an
/// amount below two, a time outside the staking window, or a stake that would
/// leave 256 bits, in this order.
pub open spec fn stake_refusal(s: State, ctx: CallContext, amount: U256) -> Option<Error> {
    if amount@ < 2 {
        Some(Error::NotRequiredStake)
    } else if !permitted(s.config, Operation::Staking, ctx.blocktime) {
        Some(Error::BadTiming)
    } else if !can_credit(s.ledger, ctx.caller, amount@ as int) {
        Some(Error::ArithmeticOverflow)
    } else {
        None
    }
}

/// The transfer that a stake asks for: the amount, from the caller to the
/// contract's own package.
pub open spec fn stake_transfer(ctx: CallContext, amount: U256) -> TransferCall {
    TransferCall::TransferFrom { owner: ctx.caller, recipient: Key::Hash(ctx.package.value), amount }
}

/// What the request for a stake returns: the refusal, or the transfer to make.
pub open spec fn stake_request_result(s: State, ctx: CallContext, amount: U256) -> Result<
    TransferCall,
    Error,
> {
    match stake_refusal(s, ctx, amount) {
        Some(e) => Err(e),
        None => Ok(stake_transfer(ctx, amount)),
    }
}

/// What a stake returns, given the outcome of its transfer.
pub open spec fn stake_result(
    s: State,
    ctx: CallContext,
    amount: U256,
    transfer: Result<(), TransferError>,
) -> Result<U256, Error> {
    match stake_refusal(s, ctx, amount) {
        Some(e) => Err(e),
        None => match transfer {
            Err(e) => Err(Error::TransferFailed(e)),
            Ok(_) => Ok(amount),
        },
    }
}

/// The state after a stake. A stake that fails leaves the state as it was; one
/// that succeeds adds the amount to the caller's stake and records a `Stake`
/// event.
pub open spec fn stake_state(
    s: State,
    ctx: CallContext,
    amount: U256,
    transfer: Result<(), TransferError>,
) -> State {
    if stake_result(s, ctx, amount, transfer) is Ok {
        State { ledger: credit(s.ledger, ctx.caller, amount@ as int), ..s }.record(
            ctx,
            CEP47Event::Stake { amount },
        )
    } else {
        s
    }
}

/// Why a withdrawal of `amount` is rejected before any asset moves, if it is: an
/// amount below two, a time outside the staking window, or an amount above the
/// caller's stake, in this order.
pub open spec fn withdraw_refusal(s: State, ctx: CallContext, amount: U256) -> Option<Error> {
    if amount@ < 2 {
        Some(Error::NotRequiredStake)
    } else if !permitted(s.config, Operation::Staking, ctx.blocktime) {
        Some(Error::BadTiming)
    } else if !can_debit(s.ledger, ctx.caller, amount@ as int) {
        Some(Error::InsufficientBalance)
    } else {
        None
    }
}

/// The transfer that a withdrawal asks for: the amount, from the contract's
/// holdings to the caller.
pub open spec fn withdraw_transfer(ctx: CallContext, amount: U256) -> TransferCall {
    TransferCall::Transfer { recipient: ctx.caller, amount }
}

/// What the request for a withdrawal returns: the refusal, or the transfer to
/// make.
pub open spec fn withdraw_request_result(s: State, ctx: CallContext, amount: U256) -> Result<
    TransferCall,
    Error,
> {
    match withdraw_refusal(s, ctx, amount) {
        Some(e) => Err(e),
        None => Ok(withdraw_transfer(ctx, amount)),
    }
}

/// What a withdrawal returns, given the outcome of its transfer.
pub open spec fn withdraw_result(
    s: State,
    ctx: CallContext,
    amount: U256,
    transfer: Result<(), TransferError>,
) -> Result<U256, Error> {
    match withdraw_refusal(s, ctx, amount) {
        Some(e) => Err(e),
        None => match transfer {
            Err(e) => Err(Error::TransferFailed(e)),
            Ok(_) => Ok(amount),
        },
    }
}

/// The state after a withdrawal. A withdrawal that fails leaves the state as it
/// was; one that succeeds takes the amount from the caller's stake and records
/// an event under the `Stake` tag.
pub open spec fn withdraw_state(
    s: State,
    ctx: CallContext,
    amount: U256,
    transfer: Result<(), TransferError>,
) -> State {
    if withdraw_result(s, ctx, amount, transfer) is Ok {
        State { ledger: debit(s.ledger, ctx.caller, amount@ as int), ..s }.record(
            ctx,
            CEP47Event::Stake { amount },
        )
    } else {
        s
    }
}

/// Why a funding of rewards is rejected before any asset moves, if it is: a time
/// at or after the start of the withdraw window, a reward of zero, a
/// withdrawable amount above the reward, or a sum of the two that leaves 256
/// bits, in this order.
pub open spec fn add_reward_refusal(
    s: State,
    ctx: CallContext,
    reward_amount: U256,
    withdrawable_amount: U256,
) -> Option<Error> {
    if !permitted(s.config, Operation::RewardFunding, ctx.blocktime) {
        Some(Error::PermissionDenied)
    } else if reward_amount@ == 0 {
        Some(Error::NegativeReward)
    } else if withdrawable_amount@ > reward_amount@ {
        Some(Error::NegativeWithdrawableReward)
    } else if reward_amount@ + withdrawable_amount@ >= modulus() {
        Some(Error::ArithmeticOverflow)
    } else {
        None
    }
}

/// Whether `call` is the transfer that a funding of rewards asks for: the
/// reward and the withdrawable amount together, from the caller to the
/// contract's own package.
pub open spec fn is_add_reward_transfer(
    call: TransferCall,
    ctx: CallContext,
    reward_amount: U256,
    withdrawable_amount: U256,
) -> bool {
    call matches TransferCall::TransferFrom { owner, recipient, amount } && owner == ctx.caller
        && recipient == Key::Hash(ctx.package.value) && amount@ == reward_amount@
        + withdrawable_amount@
}

/// What a funding of rewards returns, given the outcome of its transfer.
pub open spec fn add_reward_result(
    s: State,
    ctx: CallContext,
    reward_amount: U256,
    withdrawable_amount: U256,
    transfer: Result<(), TransferError>,
) -> Result<U256, Error> {
    match add_reward_refusal(s, ctx, reward_amount, withdrawable_amount) {
        Some(e) => Err(e),
        None => match transfer {
            Err(e) => Err(Error::TransferFailed(e)),
            Ok(_) => Ok(reward_amount),
        },
    }
}

/// The state after a funding of rewards. One that fails leaves the state as it
/// was; one that succeeds records an `AddReward` event and leaves the ledger
/// alone.
pub open spec fn add_reward_state(
    s: State,
    ctx: CallContext,
    reward_amount: U256,
    withdrawable_amount: U256,
    transfer: Result<(), TransferError>,
) -> State {
    if add_reward_result(s, ctx, reward_amount, withdrawable_amount, transfer) is Ok {
        s.record(ctx, CEP47Event::AddReward { reward_amount, withdrawable_amount })
    } else {
        s
    }
}

/// The staking contract.
#[derive(Debug)]
pub struct CEP20STK {
    config: Config,
    stakers: StakedTokens,
    events: Vec<EmittedEvent>,
}

impl View for CEP20STK {
    type V = State;

    closed spec fn view(&self) -> State {
        State { config: self.config, ledger: self.stakers@, events: self.events@ }
    }
}

impl CEP20STK {
    /// Sets the contract up with its configuration and an empty ledger. Windows
    /// that do not start before they end are rejected with `WrongArguments`.
    pub fn init(
        name: String,
        address: String,
        staking_starts: u64,
        staking_ends: u64,
        withdraw_starts: u64,
        withdraw_ends: u64,
        staking_total: U256,
    ) -> (r: Result<CEP20STK, Error>)
        ensures
            staking_starts < staking_ends && withdraw_starts < withdraw_ends ==> r is Ok && r->Ok_0@
                == (State {
                config: Config {
                    name,
                    address,
                    staking_starts,
                    staking_ends,
                    withdraw_starts,
                    withdraw_ends,
                    staking_total,
                },
                ledger: Map::empty(),
                events: Seq::empty(),
            }),
            !(staking_starts < staking_ends && withdraw_starts < withdraw_ends) ==> r is Err
                && r->Err_0 == Error::WrongArguments,
    {
        let mut config = Config {
            name: String::new(),
            address: String::new(),
            staking_starts: 0,
            staking_ends: 0,
            withdraw_starts: 0,
            withdraw_ends: 0,
            staking_total: U256::zero(),
        };
        data::set_name(&mut config, name);
        data::set_address(&mut config, address);
        data::set_staking_starts(&mut config, staking_starts);
        data::set_staking_ends(&mut config, staking_ends);
        data::set_withdraw_starts(&mut config, withdraw_starts);
        data::set_withdraw_ends(&mut config, withdraw_ends);
        data::set_staking_total(&mut config, staking_total);
        CEP20STK::restore(config, StakedTokens::init())
    }

    /// The contract with the configuration and the ledger that the host kept.
    /// Windows that do not start before they end are rejected with
    /// `WrongArguments`.
    pub fn restore(config: Config, stakers: StakedTokens) -> (r: Result<CEP20STK, Error>)
        ensures
            config.windows_in_order() ==> r is Ok && r->Ok_0@ == (State {
                config,
                ledger: stakers@,
                events: Seq::empty(),
            }) && r->Ok_0@.valid(),
            !config.windows_in_order() ==> r is Err && r->Err_0 == Error::WrongArguments,
    {
        if !(config.staking_starts < config.staking_ends && config.withdraw_starts
            < config.withdraw_ends) {
            return Err(Error::WrongArguments);
        }
        proof {
            assert forall|account: Key| 0 <= #[trigger] balance(stakers@, account) < modulus() by {
                stakers.lemma_stakes_bounded(account);
            }
        }
        Ok(CEP20STK { config, stakers, events: Vec::new() })
    }

    /// The name of the contract.
    pub fn name(&self) -> (r: String)
        ensures
            r == self@.config.name,
    {
        data::name(&self.config)
    }

    /// The reference to the staked asset.
    pub fn address(&self) -> (r: String)
        ensures
            r == self@.config.address,
    {
        data::address(&self.config)
    }

    /// The time from which staking is open.
    pub fn staking_starts(&self) -> (r: u64)
        ensures
            r == self@.config.staking_starts,
    {
        data::staking_starts(&self.config)
    }

    /// The time from which staking is closed.
    pub fn staking_ends(&self) -> (r: u64)
        ensures
            r == self@.config.staking_ends,
    {
        data::staking_ends(&self.config)
    }

    /// The time from which the withdraw window is open.
    pub fn withdraw_starts(&self) -> (r: u64)
        ensures
            r == self@.config.withdraw_starts,
    {
        data::withdraw_starts(&self.config)
    }

    /// The time from which the withdraw window is closed.
    pub fn withdraw_ends(&self) -> (r: u64)
        ensures
            r == self@.config.withdraw_ends,
    {
        data::withdraw_ends(&self.config)
    }

    /// The capacity that the contract was declared with.
    pub fn staking_total(&self) -> (r: U256)
        ensures
            r == self@.config.staking_total,
    {
        data::staking_total(&self.config)
    }

    /// The ledger, for the host to keep.
    pub fn stakers(&self) -> (r: &StakedTokens)
        ensures
            r@ == self@.ledger,
    {
        &self.stakers
    }

    /// The events recorded so far, the oldest first.
    pub fn events(&self) -> (r: &Vec<EmittedEvent>)
        ensures
            r@ == self@.events,
    {
        &self.events
    }

    /// The amount that `staker` has staked: zero for an account that the ledger
    /// does not know.
    pub fn amount_staked(&self, staker: Key) -> (r: U256)
        ensures
            r@ == balance(self@.ledger, staker),
    {
        match self.stakers.get_amount_staked_by_address(&staker) {
            Some(amount) => amount,
            None => U256::zero(),
        }
    }

    /// Records `event` for the call `ctx`.
    pub fn emit(&mut self, ctx: &CallContext, event: CEP47Event)
        ensures
            final(self)@ == old(self)@.record(*ctx, event),
    {
        self.events.push(EmittedEvent { package: ctx.package, caller: ctx.caller, event });
    }

    /// The transfer that the host has to make for a stake of `amount`, or why
    /// the stake is rejected.
    pub fn stake_request(&self, ctx: &CallContext, amount: U256) -> (r: Result<TransferCall, Error>)
        ensures
            r == stake_request_result(self@, *ctx, amount),
    {
        if amount.lt(&U256::from_u64(2)) {
            return Err(Error::NotRequiredStake);
        }
        if !is_permitted(&self.config, Operation::Staking, ctx.blocktime) {
            return Err(Error::BadTiming);
        }
        if self.amount_staked(ctx.caller).checked_add(&amount).is_none() {
            return Err(Error::ArithmeticOverflow);
        }
        Ok(TransferCall::TransferFrom { owner: ctx.caller, recipient: ctx.package.key(), amount })
    }

    /// Stakes `amount` for the caller, given the outcome of the transfer that
    /// `stake_request` asked for. It returns the amount. A stake that is
    /// rejected, or whose transfer failed, changes nothing.
    pub fn stake(
        &mut self,
        ctx: &CallContext,
        amount: U256,
        transfer: Result<(), TransferError>,
    ) -> (r: Result<U256, Error>)
        ensures
            r == stake_result(old(self)@, *ctx, amount, transfer),
            final(self)@ == stake_state(old(self)@, *ctx, amount, transfer),
    {
        match self.stake_request(ctx, amount) {
            Err(e) => {
                return Err(e);
            },
            Ok(_) => {},
        }
        match transfer {
            Err(e) => {
                return Err(Error::TransferFailed(e));
            },
            Ok(_) => {},
        }
        let credited = self.stakers.add_stake(&ctx.caller, &amount);
        assert(credited is Ok);
        self.emit(ctx, CEP47Event::Stake { amount });
        Ok(amount)
    }

    /// The transfer that the host has to make for a withdrawal of `amount`, or
    /// why the withdrawal is rejected.
    pub fn withdraw_request(&self, ctx: &CallContext, amount: U256) -> (r: Result<
        TransferCall,
        Error,
    >)
        ensures
            r == withdraw_request_result(self@, *ctx, amount),
    {
        if amount.lt(&U256::from_u64(2)) {
            return Err(Error::NotRequiredStake);
        }
        if !is_permitted(&self.config, Operation::Staking, ctx.blocktime) {
            return Err(Error::BadTiming);
        }
        if self.amount_staked(ctx.caller).lt(&amount) {
            return Err(Error::InsufficientBalance);
        }
        Ok(TransferCall::Transfer { recipient: ctx.caller, amount })
    }

    /// Withdraws `amount` of the caller's stake, given the outcome of the
    /// transfer that `withdraw_request` asked for. It returns the amount. A
    /// withdrawal that is rejected, or whose transfer failed, changes nothing.
    /// The event of a withdrawal is recorded under the `Stake` tag.
    pub fn withdraw(
        &mut self,
        ctx: &CallContext,
        amount: U256,
        transfer: Result<(), TransferError>,
    ) -> (r: Result<U256, Error>)
        ensures
            r == withdraw_result(old(self)@, *ctx, amount, transfer),
            final(self)@ == withdraw_state(old(self)@, *ctx, amount, transfer),
    {
        match self.withdraw_request(ctx, amount) {
            Err(e) => {
                return Err(e);
            },
            Ok(_) => {},
        }
        match transfer {
            Err(e) => {
                return Err(Error::TransferFailed(e));
            },
            Ok(_) => {},
        }
        let debited = self.stakers.withdraw_stake(&ctx.caller, &amount);
        assert(debited is Ok);
        self.emit(ctx, CEP47Event::Stake { amount });
        Ok(amount)
    }

    /// The transfer that the host has to make for a funding of rewards, or why
    /// the funding is rejected.
    pub fn add_reward_request(
        &self,
        ctx: &CallContext,
        reward_amount: U256,
        withdrawable_amount: U256,
    ) -> (r: Result<TransferCall, Error>)
        ensures
            add_reward_refusal(self@, *ctx, reward_amount, withdrawable_amount) matches Some(e)
                ==> r == Err::<TransferCall, Error>(e),
            add_reward_refusal(self@, *ctx, reward_amount, withdrawable_amount) is None ==> r is Ok
                && is_add_reward_transfer(r->Ok_0, *ctx, reward_amount, withdrawable_amount),
    {
        if !is_permitted(&self.config, Operation::RewardFunding, ctx.blocktime) {
            return Err(Error::PermissionDenied);
        }
        if reward_amount.is_zero() {
            return Err(Error::NegativeReward);
        }
        if reward_amount.lt(&withdrawable_amount) {
            return Err(Error::NegativeWithdrawableReward);
        }
        match reward_amount.checked_add(&withdrawable_amount) {
            Some(amount) => Ok(
                TransferCall::TransferFrom {
                    owner: ctx.caller,
                    recipient: ctx.package.key(),
                    amount,
                },
            ),
            None => Err(Error::ArithmeticOverflow),
        }
    }

    /// Funds the reward pool, given the outcome of the transfer that
    /// `add_reward_request` asked for. It returns the reward amount and leaves
    /// the ledger alone. A funding that is rejected, or whose transfer failed,
    /// changes nothing.
    pub fn add_reward(
        &mut self,
        ctx: &CallContext,
        reward_amount: U256,
        withdrawable_amount: U256,
        transfer: Result<(), TransferError>,
    ) -> (r: Result<U256, Error>)
        ensures
            r == add_reward_result(old(self)@, *ctx, reward_amount, withdrawable_amount, transfer),
            final(self)@ == add_reward_state(
                old(self)@,
                *ctx,
                reward_amount,
                withdrawable_amount,
                transfer,
            ),
    {
        match self.add_reward_request(ctx, reward_amount, withdrawable_amount) {
            Err(e) => {
                return Err(e);
            },
            Ok(_) => {},
        }
        match transfer {
            Err(e) => {
                return Err(Error::TransferFailed(e));
            },
            Ok(_) => {},
        }
        self.emit(ctx, CEP47Event::AddReward { reward_amount, withdrawable_amount });
        Ok(reward_amount)
    }
}

} // verus!
