//! Unsigned 256-bit amounts.
//!
//! An amount is held as four 64-bit limbs, least significant first, which is the
//! layout of `casper_types::U256`. Its view is the natural number that the limbs
//! spell. Sums, differences, comparisons and the decimal rendering are computed
//! by `casper_types::U256`; the functions that make those calls are the only
//! unproved items of this module.

use vstd::prelude::*;

verus! {

/// The number of values of a `U256`, two to the power 256.
pub open spec fn modulus() -> nat {
    0x1_0000000000000000_0000000000000000_0000000000000000_0000000000000000nat
}

/// The number that four limbs spell, the least significant limb first.
pub open spec fn limbs_value(limbs: [u64; 4]) -> nat {
    (limbs[0] as nat) + (limbs[1] as nat) * 0x1_0000000000000000nat + (limbs[2] as nat)
        * 0x1_0000000000000000_0000000000000000nat + (limbs[3] as nat)
        * 0x1_0000000000000000_0000000000000000_0000000000000000nat
}

/// The decimal digit `d`, for `d` below ten.
pub open spec fn decimal_digit(d: nat) -> char {
    seq!['0', '1', '2', '3', '4', '5', '6', '7', '8', '9'][d as int]
}

/// The decimal numeral of `n`, without leading zeros; zero is `"0"`.
pub open spec fn decimal(n: nat) -> Seq<char>
    decreases n,
{
    if n < 10 {
        seq![decimal_digit(n)]
    } else {
        decimal(n / 10).push(decimal_digit(n % 10))
    }
}

/// An unsigned 256-bit integer.
#[derive(Clone, Copy, Debug, PartialEq, Eq)]
pub struct U256 {
    /// The limbs, least significant first.
    pub limbs: [u64; 4],
}

impl View for U256 {
    type V = nat;

    open spec fn view(&self) -> nat {
        limbs_value(self.limbs)
    }
}

/// Calls `casper_types::U256::checked_add` on the two limb arrays. The sum of two
/// values that stays below two to the power 256 comes back as `Some`, with that
/// sum as its value; a sum that does not fit comes back as `None`.
#[verifier::external_body]
fn limbs_checked_add(a: &U256, b: &U256) -> (sum: Option<U256>)
    ensures
        a@ + b@ < modulus() ==> sum is Some && sum->Some_0@ == a@ + b@,
        a@ + b@ >= modulus() ==> sum is None,
{
    match casper_types::U256(a.limbs).checked_add(casper_types::U256(b.limbs)) {
        Some(s) => Some(U256 { limbs: s.0 }),
        None => None,
    }
}

/// Calls `casper_types::U256::checked_sub` on the two limb arrays. Where the
/// second value does not exceed the first, the difference comes back as `Some`;
/// where it does, `None` comes back.
#[verifier::external_body]
fn limbs_checked_sub(a: &U256, b: &U256) -> (difference: Option<U256>)
    ensures
        b@ <= a@ ==> difference is Some && difference->Some_0@ == a@ - b@,
        b@ > a@ ==> difference is None,
{
    match casper_types::U256(a.limbs).checked_sub(casper_types::U256(b.limbs)) {
        Some(d) => Some(U256 { limbs: d.0 }),
        None => None,
    }
}

/// Compares two limb arrays with the `<` of `casper_types::U256`, which orders
/// them from the most significant limb down, that is by value.
#[verifier::external_body]
fn limbs_lt(a: &U256, b: &U256) -> (less: bool)
    ensures
        less == (a@ < b@),
{
    casper_types::U256(a.limbs) < casper_types::U256(b.limbs)
}

/// Renders the limbs with the `Display` of `casper_types::U256`, which writes the
/// decimal numeral of the value.
#[verifier::external_body]
fn limbs_to_string(a: &U256) -> (text: String)
    ensures
        text@ == decimal(a@),
{
    casper_types::U256(a.limbs).to_string()
}

impl U256 {
    /// The amount zero.
    pub fn zero() -> (r: U256)
        ensures
            r@ == 0,
    {
        U256 { limbs: [0, 0, 0, 0] }
    }

    /// The largest amount.
    pub fn max_value() -> (r: U256)
        ensures
            r@ == modulus() - 1,
    {
        U256 { limbs: [u64::MAX, u64::MAX, u64::MAX, u64::MAX] }
    }

    /// The amount whose value is `value`.
    pub fn from_u64(value: u64) -> (r: U256)
        ensures
            r@ == value,
    {
        U256 { limbs: [value, 0, 0, 0] }
    }

    /// Whether the amount is zero.
    pub fn is_zero(&self) -> (r: bool)
        ensures
            r == (self@ == 0),
    {
        self.limbs[0] == 0 && self.limbs[1] == 0 && self.limbs[2] == 0 && self.limbs[3] == 0
    }

    /// The sum of two amounts, or `None` where it does not fit in 256 bits.
    pub fn checked_add(&self, other: &U256) -> (sum: Option<U256>)
        ensures
            self@ + other@ < modulus() ==> sum is Some && sum->Some_0@ == self@ + other@,
            self@ + other@ >= modulus() ==> sum is None,
    {
        limbs_checked_add(self, other)
    }

    /// The difference of two amounts, or `None` where `other` exceeds `self`.
    pub fn checked_sub(&self, other: &U256) -> (difference: Option<U256>)
        ensures
            other@ <= self@ ==> difference is Some && difference->Some_0@ == self@ - other@,
            other@ > self@ ==> difference is None,
    {
        limbs_checked_sub(self, other)
    }

    /// Whether `self` is less than `other`.
    pub fn lt(&self, other: &U256) -> (r: bool)
        ensures
            r == (self@ < other@),
    {
        limbs_lt(self, other)
    }

    /// Whether `self` is at most `other`.
    pub fn le(&self, other: &U256) -> (r: bool)
        ensures
            r == (self@ <= other@),
    {
        !limbs_lt(other, self)
    }

    /// The decimal numeral of the amount.
    pub fn to_string(&self) -> (text: String)
        ensures
            text@ == decimal(self@),
    {
        limbs_to_string(self)
    }
}

/// Every amount is below two to the power 256.
pub proof fn lemma_value_bounded(a: U256)
    ensures
        a@ < modulus(),
{
}

/// Two amounts of one value are the same amount: a contract that states the
/// value of an amount states the amount.
pub proof fn lemma_value_injective(a: U256, b: U256)
    requires
        a@ == b@,
    ensures
        a == b,
{
    assert(a.limbs@ =~= b.limbs@);
    assert(a.limbs =~= b.limbs);
}

} // verus!
