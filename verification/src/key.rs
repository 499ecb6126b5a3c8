//! Identities: account and contract keys, package hashes and call-stack frames.
//!
//! Each identity is held as its 32 raw bytes. The textual forms are those of
//! `casper_types`, which renders them; the functions that make those calls are
//! the only unproved items of this module.

use vstd::prelude::*;
use vstd::std_specs::cmp::PartialEqSpecImpl;

verus! {

/// The lower-case hexadecimal digit `d`, for `d` below sixteen.
pub open spec fn hex_digit(d: nat) -> char {
    seq!['0', '1', '2', '3', '4', '5', '6', '7', '8', '9', 'a', 'b', 'c', 'd', 'e', 'f'][d as int]
}

/// The lower-case hexadecimal text of `bytes`: two digits for each byte, the
/// high half first, in the order of the bytes.
pub open spec fn hex_lower(bytes: Seq<u8>) -> Seq<char>
    decreases bytes.len(),
{
    if bytes.len() == 0 {
        Seq::empty()
    } else {
        hex_lower(bytes.drop_last()).push(hex_digit(bytes.last() as nat / 16)).push(
            hex_digit(bytes.last() as nat % 16),
        )
    }
}

/// Renders an account hash with `casper_types::account::AccountHash::to_formatted_string`:
/// the prefix `account-hash-`, then the bytes in lower-case hexadecimal.
#[verifier::external_body]
fn account_hash_formatted(bytes: &[u8; 32]) -> (text: String)
    ensures
        text@ == "account-hash-"@ + hex_lower(bytes@),
{
    casper_types::account::AccountHash::new(*bytes).to_formatted_string()
}

/// Renders a hash address with `casper_types::Key::to_formatted_string` on its
/// `Hash` variant: the prefix `hash-`, then the bytes in lower-case hexadecimal.
#[verifier::external_body]
fn hash_addr_formatted(bytes: &[u8; 32]) -> (text: String)
    ensures
        text@ == "hash-"@ + hex_lower(bytes@),
{
    casper_types::Key::Hash(*bytes).to_formatted_string()
}

/// Renders a package hash with the `Display` of `casper_types::ContractPackageHash`:
/// the bytes in lower-case hexadecimal, without a prefix.
#[verifier::external_body]
fn package_hash_displayed(bytes: &[u8; 32]) -> (text: String)
    ensures
        text@ == hex_lower(bytes@),
{
    casper_types::ContractPackageHash::new(*bytes).to_string()
}

/// Whether two hashes hold the same bytes.
fn same_bytes(a: &[u8; 32], b: &[u8; 32]) -> (same: bool)
    ensures
        same == (*a == *b),
{
    let mut i: usize = 0;
    while i < 32
        invariant
            i <= 32,
            forall|j: int| 0 <= j < i ==> a[j] == b[j],
        decreases 32 - i,
    {
        if a[i] != b[i] {
            return false;
        }
        i += 1;
    }
    assert(a@ =~= b@);
    assert(*a =~= *b);
    true
}

/// The identity of a party that can hold a stake: a user account or a contract.
#[derive(Clone, Copy, Debug, Eq)]
pub enum Key {
    /// A user account, by its account hash.
    Account([u8; 32]),
    /// A contract, by its hash address.
    Hash([u8; 32]),
}

impl PartialEq for Key {
    fn eq(&self, other: &Key) -> (r: bool) {
        match (self, other) {
            (Key::Account(a), Key::Account(b)) => same_bytes(a, b),
            (Key::Hash(a), Key::Hash(b)) => same_bytes(a, b),
            _ => false,
        }
    }
}

impl PartialEqSpecImpl for Key {
    open spec fn obeys_eq_spec() -> bool {
        true
    }

    open spec fn eq_spec(&self, other: &Key) -> bool {
        *self == *other
    }
}

impl Key {
    /// The text of a key: `account-hash-` or `hash-`, then the 32 bytes in
    /// lower-case hexadecimal.
    pub open spec fn formatted(self) -> Seq<char> {
        match self {
            Key::Account(bytes) => "account-hash-"@ + hex_lower(bytes@),
            Key::Hash(bytes) => "hash-"@ + hex_lower(bytes@),
        }
    }

    /// The human-readable form of the key.
    pub fn to_formatted_string(&self) -> (text: String)
        ensures
            text@ == self.formatted(),
    {
        match self {
            Key::Account(bytes) => account_hash_formatted(bytes),
            Key::Hash(bytes) => hash_addr_formatted(bytes),
        }
    }
}

/// The hash that names a contract package.
#[derive(Clone, Copy, Debug, Eq)]
pub struct ContractPackageHash {
    /// The raw bytes of the hash.
    pub value: [u8; 32],
}

impl PartialEq for ContractPackageHash {
    fn eq(&self, other: &ContractPackageHash) -> (r: bool) {
        same_bytes(&self.value, &other.value)
    }
}

impl PartialEqSpecImpl for ContractPackageHash {
    open spec fn obeys_eq_spec() -> bool {
        true
    }

    open spec fn eq_spec(&self, other: &ContractPackageHash) -> bool {
        *self == *other
    }
}

impl ContractPackageHash {
    /// The package hash made of `value`.
    pub fn new(value: [u8; 32]) -> (r: ContractPackageHash)
        ensures
            r.value == value,
    {
        ContractPackageHash { value }
    }

    /// The key under which the package holds assets.
    pub fn key(&self) -> (r: Key)
        ensures
            r == Key::Hash(self.value),
    {
        Key::Hash(self.value)
    }

    /// The bytes of the hash in lower-case hexadecimal.
    pub fn to_string(&self) -> (text: String)
        ensures
            text@ == hex_lower(self.value@),
    {
        package_hash_displayed(&self.value)
    }
}

/// One frame of the host's call stack.
#[derive(Clone, Copy, Debug, PartialEq, Eq)]
pub enum CallStackElement {
    /// Session code run by an account.
    Session {
        /// The account that runs the session.
        account_hash: [u8; 32],
    },
    /// A stored contract run as a session by an account.
    StoredSession {
        /// The account that runs the session.
        account_hash: [u8; 32],
        /// The package of the stored contract.
        contract_package_hash: ContractPackageHash,
        /// The stored contract.
        contract_hash: [u8; 32],
    },
    /// A stored contract called as a contract.
    StoredContract {
        /// The package of the stored contract.
        contract_package_hash: ContractPackageHash,
        /// The stored contract.
        contract_hash: [u8; 32],
    },
}

} // verus!
