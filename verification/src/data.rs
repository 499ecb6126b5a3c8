//! The contract's data: its configuration, the ledger of staked amounts, and the
//! record that is written for each event.

use crate::error::Error;
use crate::event::CEP47Event;
use crate::key::{hex_lower, CallStackElement, ContractPackageHash, Key};
use crate::uint::{decimal, modulus, U256};
use vstd::prelude::*;

verus! {

/// What the contract is set up with. It is written once, when the contract is
/// initialized, and read from then on.
#[derive(Debug)]
pub struct Config {
    /// The name of the contract.
    pub name: String,
    /// The reference to the staked asset.
    pub address: String,
    /// The time from which staking is open.
    pub staking_starts: u64,
    /// The time from which staking is closed.
    pub staking_ends: u64,
    /// The time from which the withdraw window is open.
    pub withdraw_starts: u64,
    /// The time from which the withdraw window is closed.
    pub withdraw_ends: u64,
    /// The capacity that the contract was declared with. It is advisory: no
    /// operation holds the sum of the stakes against it.
    pub staking_total: U256,
}

impl Config {
    /// Whether each window starts before it ends.
    pub open spec fn windows_in_order(&self) -> bool {
        self.staking_starts < self.staking_ends && self.withdraw_starts < self.withdraw_ends
    }
}

/// The name of the contract.
pub fn name(config: &Config) -> (r: String)
    ensures
        r == config.name,
{
    config.name.clone()
}

/// Sets the name of the contract.
pub fn set_name(config: &mut Config, name: String)
    ensures
        *final(config) == (Config { name, ..*old(config) }),
{
    config.name = name;
}

/// The reference to the staked asset.
pub fn address(config: &Config) -> (r: String)
    ensures
        r == config.address,
{
    config.address.clone()
}

/// Sets the reference to the staked asset.
pub fn set_address(config: &mut Config, address: String)
    ensures
        *final(config) == (Config { address, ..*old(config) }),
{
    config.address = address;
}

/// The time from which staking is open.
pub fn staking_starts(config: &Config) -> (r: u64)
    ensures
        r == config.staking_starts,
{
    config.staking_starts
}

/// Sets the time from which staking is open.
pub fn set_staking_starts(config: &mut Config, staking_starts: u64)
    ensures
        *final(config) == (Config { staking_starts, ..*old(config) }),
{
    config.staking_starts = staking_starts;
}

/// The time from which staking is closed.
pub fn staking_ends(config: &Config) -> (r: u64)
    ensures
        r == config.staking_ends,
{
    config.staking_ends
}

/// Sets the time from which staking is closed.
pub fn set_staking_ends(config: &mut Config, staking_ends: u64)
    ensures
        *final(config) == (Config { staking_ends, ..*old(config) }),
{
    config.staking_ends = staking_ends;
}

/// The time from which the withdraw window is open.
pub fn withdraw_starts(config: &Config) -> (r: u64)
    ensures
        r == config.withdraw_starts,
{
    config.withdraw_starts
}

/// Sets the time from which the withdraw window is open.
pub fn set_withdraw_starts(config: &mut Config, withdraw_starts: u64)
    ensures
        *final(config) == (Config { withdraw_starts, ..*old(config) }),
{
    config.withdraw_starts = withdraw_starts;
}

/// The time from which the withdraw window is closed.
pub fn withdraw_ends(config: &Config) -> (r: u64)
    ensures
        r == config.withdraw_ends,
{
    config.withdraw_ends
}

/// Sets the time from which the withdraw window is closed.
pub fn set_withdraw_ends(config: &mut Config, withdraw_ends: u64)
    ensures
        *final(config) == (Config { withdraw_ends, ..*old(config) }),
{
    config.withdraw_ends = withdraw_ends;
}

/// The capacity that the contract was declared with.
pub fn staking_total(config: &Config) -> (r: U256)
    ensures
        r == config.staking_total,
{
    config.staking_total
}

/// Sets the capacity that the contract is declared with.
pub fn set_staking_total(config: &mut Config, staking_total: U256)
    ensures
        *final(config) == (Config { staking_total, ..*old(config) }),
{
    config.staking_total = staking_total;
}

/// The package of the contract that runs: that of the last frame of the call
/// stack, which has to be a stored contract.
pub open spec fn running_package(call_stack: Seq<CallStackElement>) -> Result<
    ContractPackageHash,
    Error,
> {
    if call_stack.len() == 0 {
        Err(Error::InvalidContext)
    } else {
        match call_stack.last() {
            CallStackElement::StoredContract { contract_package_hash, .. } => Ok(
                contract_package_hash,
            ),
            _ => Err(Error::InvalidContext),
        }
    }
}

/// The package hash of the contract that runs, read from the host's call stack.
/// An empty stack, or one whose last frame is no stored contract, is rejected
/// with `InvalidContext`.
pub fn contract_package_hash(call_stack: &Vec<CallStackElement>) -> (r: Result<
    ContractPackageHash,
    Error,
>)
    ensures
        r == running_package(call_stack@),
{
    if call_stack.len() == 0 {
        return Err(Error::InvalidContext);
    }
    match call_stack[call_stack.len() - 1] {
        CallStackElement::StoredContract { contract_package_hash, .. } => Ok(
            contract_package_hash,
        ),
        _ => Err(Error::InvalidContext),
    }
}

/// The party that called the contract that runs: the frame below the top of the
/// call stack. A session stands for its account, a stored contract for its
/// package.
pub open spec fn calling_party(call_stack: Seq<CallStackElement>) -> Result<Key, Error> {
    if call_stack.len() < 2 {
        Err(Error::InvalidContext)
    } else {
        match call_stack[call_stack.len() - 2] {
            CallStackElement::Session { account_hash } => Ok(Key::Account(account_hash)),
            CallStackElement::StoredSession { account_hash, .. } => Ok(Key::Account(account_hash)),
            CallStackElement::StoredContract { contract_package_hash, .. } => Ok(
                Key::Hash(contract_package_hash.value),
            ),
        }
    }
}

/// The party that called the contract that runs, read from the host's call
/// stack. A stack of fewer than two frames is rejected with `InvalidContext`.
pub fn immediate_caller(call_stack: &Vec<CallStackElement>) -> (r: Result<Key, Error>)
    ensures
        r == calling_party(call_stack@),
{
    if call_stack.len() < 2 {
        return Err(Error::InvalidContext);
    }
    match call_stack[call_stack.len() - 2] {
        CallStackElement::Session { account_hash } => Ok(Key::Account(account_hash)),
        CallStackElement::StoredSession { account_hash, .. } => Ok(Key::Account(account_hash)),
        CallStackElement::StoredContract { contract_package_hash, .. } => Ok(
            contract_package_hash.key(),
        ),
    }
}

/// The named values that are written for `event`, in the order of their names:
/// the package of the contract, the kind of the event, and what the event holds.
/// A stake and a withdrawal name the staker; the funding of rewards does not.
pub open spec fn event_params(event: CEP47Event, package: ContractPackageHash, staker: Key) -> Seq<
    (Seq<char>, Seq<char>),
> {
    match event {
        CEP47Event::Stake { amount } => seq![
            ("contract_package_hash"@, hex_lower(package.value@)),
            ("event_type"@, "stake"@),
            ("stake_amount"@, decimal(amount@)),
            ("staker"@, staker.formatted()),
        ],
        CEP47Event::Withdraw { amount } => seq![
            ("contract_package_hash"@, hex_lower(package.value@)),
            ("event_type"@, "withdraw"@),
            ("staker"@, staker.formatted()),
            ("withdrawn_amount"@, decimal(amount@)),
        ],
        CEP47Event::AddReward { reward_amount, withdrawable_amount } => seq![
            ("contract_package_hash"@, hex_lower(package.value@)),
            ("event_type"@, "add_reward"@),
            ("reward_amount"@, decimal(reward_amount@)),
            ("withdrawable_amount"@, decimal(withdrawable_amount@)),
        ],
    }
}

/// The texts of a list of named values.
pub open spec fn params_view(params: Seq<(String, String)>) -> Seq<(Seq<char>, Seq<char>)> {
    Seq::new(params.len(), |i: int| (params[i].0@, params[i].1@))
}

/// Renders `event` as the named values that the host writes to its event log.
pub fn emit(event: &CEP47Event, package: &ContractPackageHash, staker: &Key) -> (params: Vec<
    (String, String),
>)
    ensures
        params_view(params@) == event_params(*event, *package, *staker),
{
    let mut params: Vec<(String, String)> = Vec::new();
    params.push(("contract_package_hash".to_owned(), package.to_string()));
    match event {
        CEP47Event::Stake { amount } => {
            params.push(("event_type".to_owned(), "stake".to_owned()));
            params.push(("stake_amount".to_owned(), amount.to_string()));
            params.push(("staker".to_owned(), staker.to_formatted_string()));
        },
        CEP47Event::Withdraw { amount } => {
            params.push(("event_type".to_owned(), "withdraw".to_owned()));
            params.push(("staker".to_owned(), staker.to_formatted_string()));
            params.push(("withdrawn_amount".to_owned(), amount.to_string()));
        },
        CEP47Event::AddReward { reward_amount, withdrawable_amount } => {
            params.push(("event_type".to_owned(), "add_reward".to_owned()));
            params.push(("reward_amount".to_owned(), reward_amount.to_string()));
            params.push(("withdrawable_amount".to_owned(), withdrawable_amount.to_string()));
        },
    }
    assert(params_view(params@) =~= event_params(*event, *package, *staker));
    params
}

/// The amount that `account` has staked in `ledger`: its entry, or zero where it
/// has none.
pub open spec fn balance(ledger: Map<Key, int>, account: Key) -> int {
    if ledger.dom().contains(account) {
        ledger[account]
    } else {
        0
    }
}

/// Whether `amount` can be added to the stake of `account` without leaving 256 bits.
pub open spec fn can_credit(ledger: Map<Key, int>, account: Key, amount: int) -> bool {
    balance(ledger, account) + amount < modulus()
}

/// Whether `amount` can be taken from the stake of `account`.
pub open spec fn can_debit(ledger: Map<Key, int>, account: Key, amount: int) -> bool {
    amount <= balance(ledger, account)
}

/// The ledger after `amount` was added to the stake of `account`. A credit that
/// does not fit leaves the ledger as it was.
pub open spec fn credit(ledger: Map<Key, int>, account: Key, amount: int) -> Map<Key, int> {
    if can_credit(ledger, account, amount) {
        ledger.insert(account, balance(ledger, account) + amount)
    } else {
        ledger
    }
}

/// The ledger after `amount` was taken from the stake of `account`. A debit that
/// exceeds the stake leaves the ledger as it was.
pub open spec fn debit(ledger: Map<Key, int>, account: Key, amount: int) -> Map<Key, int> {
    if can_debit(ledger, account, amount) {
        ledger.insert(account, balance(ledger, account) - amount)
    } else {
        ledger
    }
}

/// The ledger that the stored entries spell, written one after the other: of two
/// entries for one account the later one stands.
pub open spec fn ledger_from(stored: Seq<(Key, U256)>) -> Map<Key, int>
    decreases stored.len(),
{
    if stored.len() == 0 {
        Map::empty()
    } else {
        ledger_from(stored.drop_last()).insert(stored.last().0, stored.last().1@ as int)
    }
}

/// One entry of the ledger.
#[derive(Clone, Copy, Debug)]
struct Entry {
    owner: Key,
    amount: U256,
}

/// Whether some entry belongs to `owner`.
spec fn has_entry(entries: Seq<Entry>, owner: Key) -> bool {
    exists|i: int| 0 <= i < entries.len() && entries[i].owner == owner
}

/// The place of the entry of `owner`, where it has one.
spec fn entry_of(entries: Seq<Entry>, owner: Key) -> int {
    choose|i: int| 0 <= i < entries.len() && entries[i].owner == owner
}

/// Whether no two entries belong to one owner.
spec fn owners_distinct(entries: Seq<Entry>) -> bool {
    forall|i: int, j: int|
        0 <= i < j < entries.len() ==> (#[trigger] entries[i]).owner != (#[trigger] entries[j]).owner
}

/// The ledger that the entries spell.
spec fn ledger_of(entries: Seq<Entry>) -> Map<Key, int> {
    Map::new(
        |owner: Key| has_entry(entries, owner),
        |owner: Key| entries[entry_of(entries, owner)].amount@ as int,
    )
}

/// With distinct owners, the entry at place `i` is the entry of its owner.
proof fn lemma_entry_found(entries: Seq<Entry>, i: int)
    requires
        owners_distinct(entries),
        0 <= i < entries.len(),
    ensures
        has_entry(entries, entries[i].owner),
        entry_of(entries, entries[i].owner) == i,
        ledger_of(entries).dom().contains(entries[i].owner),
        ledger_of(entries)[entries[i].owner] == entries[i].amount@,
{
    let j = entry_of(entries, entries[i].owner);
    assert(0 <= j < entries.len() && entries[j].owner == entries[i].owner);
}

/// Replacing the amount of the entry at place `i` replaces its owner's stake.
proof fn lemma_entry_replaced(entries: Seq<Entry>, i: int, amount: U256)
    requires
        owners_distinct(entries),
        0 <= i < entries.len(),
    ensures
        owners_distinct(entries.update(i, Entry { owner: entries[i].owner, amount })),
        ledger_of(entries.update(i, Entry { owner: entries[i].owner, amount })) == ledger_of(
            entries,
        ).insert(entries[i].owner, amount@ as int),
{
    let owner = entries[i].owner;
    let after = entries.update(i, Entry { owner, amount });
    assert(owners_distinct(after)) by {
        assert forall|a: int, b: int| 0 <= a < b < after.len() implies (#[trigger] after[a]).owner
            != (#[trigger] after[b]).owner by {
            assert(after[a].owner == entries[a].owner);
            assert(after[b].owner == entries[b].owner);
        }
    }
    assert forall|k: Key| has_entry(after, k) == has_entry(entries, k) by {
        if has_entry(entries, k) {
            let j = entry_of(entries, k);
            assert(after[j].owner == k);
        }
        if has_entry(after, k) {
            let j = entry_of(after, k);
            assert(entries[j].owner == k);
        }
    }
    assert forall|k: Key| has_entry(after, k) implies #[trigger] ledger_of(after)[k] == ledger_of(
        entries,
    ).insert(owner, amount@ as int)[k] by {
        let j = entry_of(after, k);
        lemma_entry_found(after, j);
        assert(entries[j].owner == k);
        lemma_entry_found(entries, j);
    }
    assert(ledger_of(after) =~= ledger_of(entries).insert(owner, amount@ as int));
}

/// Appending an entry for an owner that has none sets that owner's stake.
proof fn lemma_entry_appended(entries: Seq<Entry>, entry: Entry)
    requires
        owners_distinct(entries),
        !has_entry(entries, entry.owner),
    ensures
        owners_distinct(entries.push(entry)),
        ledger_of(entries.push(entry)) == ledger_of(entries).insert(
            entry.owner,
            entry.amount@ as int,
        ),
{
    let after = entries.push(entry);
    assert(owners_distinct(after)) by {
        assert forall|a: int, b: int| 0 <= a < b < after.len() implies (#[trigger] after[a]).owner
            != (#[trigger] after[b]).owner by {
            assert(after[a] == entries[a]);
            if b < entries.len() {
                assert(after[b] == entries[b]);
            }
        }
    }
    assert forall|k: Key| has_entry(after, k) == (has_entry(entries, k) || k == entry.owner) by {
        if has_entry(entries, k) {
            let j = entry_of(entries, k);
            assert(after[j].owner == k);
        }
        if k == entry.owner {
            assert(after[entries.len() as int].owner == k);
        }
        if has_entry(after, k) {
            let j = entry_of(after, k);
            if j < entries.len() {
                assert(entries[j].owner == k);
            }
        }
    }
    assert forall|k: Key| has_entry(after, k) implies #[trigger] ledger_of(after)[k] == ledger_of(
        entries,
    ).insert(entry.owner, entry.amount@ as int)[k] by {
        let j = entry_of(after, k);
        lemma_entry_found(after, j);
        if j < entries.len() {
            assert(entries[j].owner == k);
            lemma_entry_found(entries, j);
        }
    }
    assert(ledger_of(after) =~= ledger_of(entries).insert(entry.owner, entry.amount@ as int));
}

/// The ledger of staked amounts, one entry for each account that was written to.
#[derive(Debug)]
pub struct StakedTokens {
    entries: Vec<Entry>,
}

impl View for StakedTokens {
    type V = Map<Key, int>;

    closed spec fn view(&self) -> Map<Key, int> {
        ledger_of(self.entries@)
    }
}

impl StakedTokens {
    #[verifier::type_invariant]
    spec fn well_formed(self) -> bool {
        owners_distinct(self.entries@)
    }

    /// Every stake of a ledger is an amount of 256 bits.
    pub proof fn lemma_stakes_bounded(self, account: Key)
        ensures
            0 <= balance(self@, account) < modulus(),
    {
        if has_entry(self.entries@, account) {
            let i = entry_of(self.entries@, account);
            crate::uint::lemma_value_bounded(self.entries@[i].amount);
        }
    }

    /// The empty ledger.
    pub fn init() -> (ledger: StakedTokens)
        ensures
            ledger@ == Map::<Key, int>::empty(),
    {
        let ledger = StakedTokens { entries: Vec::new() };
        assert(ledger@ =~= Map::<Key, int>::empty());
        ledger
    }

    /// The ledger over the entries that the host has stored, written one after
    /// the other: of two entries for one account the later one stands.
    pub fn instance(stored: &Vec<(Key, U256)>) -> (ledger: StakedTokens)
        ensures
            ledger@ == ledger_from(stored@),
    {
        let mut ledger = StakedTokens::init();
        let mut i: usize = 0;
        while i < stored.len()
            invariant
                i <= stored@.len(),
                ledger@ == ledger_from(stored@.subrange(0, i as int)),
            decreases stored@.len() - i,
        {
            let (owner, amount) = stored[i];
            ledger.set(&owner, &amount);
            proof {
                assert(stored@.subrange(0, i + 1).drop_last() =~= stored@.subrange(0, i as int));
            }
            i += 1;
        }
        proof {
            assert(stored@.subrange(0, i as int) =~= stored@);
        }
        ledger
    }

    /// Writes `amount` as the stake of `owner`.
    fn set(&mut self, owner: &Key, amount: &U256)
        ensures
            final(self)@ == old(self)@.insert(*owner, amount@ as int),
    {
        proof {
            use_type_invariant(&*self);
        }
        let place = self.position(owner);
        let mut entries = Vec::new();
        std::mem::swap(&mut entries, &mut self.entries);
        match place {
            Some(i) => {
                proof {
                    lemma_entry_found(entries@, i as int);
                    lemma_entry_replaced(entries@, i as int, *amount);
                }
                entries[i] = Entry { owner: *owner, amount: *amount };
            },
            None => {
                proof {
                    lemma_entry_appended(entries@, Entry { owner: *owner, amount: *amount });
                }
                entries.push(Entry { owner: *owner, amount: *amount });
            },
        }
        self.entries = entries;
    }

    /// The place of the entry of `owner`, or `None` where it has none.
    fn position(&self, owner: &Key) -> (place: Option<usize>)
        ensures
            place matches Some(i) ==> i < self.entries@.len() && self.entries@[i as int].owner
                == *owner,
            place is None ==> !has_entry(self.entries@, *owner),
    {
        let mut i: usize = 0;
        while i < self.entries.len()
            invariant
                i <= self.entries@.len(),
                forall|j: int| 0 <= j < i ==> self.entries@[j].owner != *owner,
            decreases self.entries@.len() - i,
        {
            if self.entries[i].owner == *owner {
                return Some(i);
            }
            i += 1;
        }
        None
    }

    /// The staked amount of `address`, or `None` where the ledger has no entry
    /// for it.
    pub fn get_amount_staked_by_address(&self, address: &Key) -> (staked: Option<U256>)
        ensures
            staked is Some <==> self@.dom().contains(*address),
            staked matches Some(amount) ==> amount@ == self@[*address],
    {
        proof {
            use_type_invariant(self);
        }
        match self.position(address) {
            Some(i) => {
                proof {
                    lemma_entry_found(self.entries@, i as int);
                }
                Some(self.entries[i].amount)
            },
            None => None,
        }
    }

    /// Adds `amount` to the stake of `owner`, whose entry is made where it has
    /// none. A sum that does not fit in 256 bits is rejected with
    /// `ArithmeticOverflow`, and the ledger stays as it was.
    pub fn add_stake(&mut self, owner: &Key, amount: &U256) -> (r: Result<(), Error>)
        ensures
            can_credit(old(self)@, *owner, amount@ as int) ==> r == Ok::<(), Error>(()),
            !can_credit(old(self)@, *owner, amount@ as int) ==> r == Err::<(), Error>(
                Error::ArithmeticOverflow,
            ),
            final(self)@ == credit(old(self)@, *owner, amount@ as int),
    {
        proof {
            use_type_invariant(&*self);
            crate::uint::lemma_value_bounded(*amount);
        }
        match self.position(owner) {
            Some(i) => {
                proof {
                    lemma_entry_found(self.entries@, i as int);
                }
                match self.entries[i].amount.checked_add(amount) {
                    Some(sum) => {
                        self.set(owner, &sum);
                        Ok(())
                    },
                    None => Err(Error::ArithmeticOverflow),
                }
            },
            None => {
                self.set(owner, amount);
                Ok(())
            },
        }
    }

    /// Takes `amount` from the stake of `owner`. An amount that exceeds the stake
    /// is rejected with `InsufficientBalance`, and the ledger stays as it was.
    pub fn withdraw_stake(&mut self, owner: &Key, amount: &U256) -> (r: Result<(), Error>)
        ensures
            can_debit(old(self)@, *owner, amount@ as int) ==> r == Ok::<(), Error>(()),
            !can_debit(old(self)@, *owner, amount@ as int) ==> r == Err::<(), Error>(
                Error::InsufficientBalance,
            ),
            final(self)@ == debit(old(self)@, *owner, amount@ as int),
    {
        proof {
            use_type_invariant(&*self);
        }
        match self.position(owner) {
            Some(i) => {
                proof {
                    lemma_entry_found(self.entries@, i as int);
                }
                match self.entries[i].amount.checked_sub(amount) {
                    Some(rest) => {
                        self.set(owner, &rest);
                        Ok(())
                    },
                    None => Err(Error::InsufficientBalance),
                }
            },
            None => {
                if amount.is_zero() {
                    self.set(owner, amount);
                    Ok(())
                } else {
                    Err(Error::InsufficientBalance)
                }
            },
        }
    }
}

} // verus!
