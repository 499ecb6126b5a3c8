//! The failures that an operation of the staking contract reports.

use vstd::prelude::*;

verus! {

/// The failure that the asset transfer service reported for one transfer.
#[derive(Clone, Copy, Debug, PartialEq, Eq, Structural)]
pub struct TransferError {
    /// The service's own error code.
    pub code: u32,
}

/// Why an operation was rejected.
#[derive(Clone, Copy, Debug, PartialEq, Eq, Structural)]
pub enum Error {
    /// Reward funding was attempted at or after the start of the withdraw window.
    PermissionDenied,
    /// The window boundaries handed to initialization are not in order.
    WrongArguments,
    /// The amount staked or withdrawn is below the minimum of two units.
    NotRequiredStake,
    /// The operation was attempted outside the staking window.
    BadTiming,
    /// The call stack does not end in a stored contract.
    InvalidContext,
    /// The reward amount is not positive.
    NegativeReward,
    /// The withdrawable amount exceeds the reward amount.
    NegativeWithdrawableReward,
    /// A sum of amounts does not fit in 256 bits.
    ArithmeticOverflow,
    /// A withdrawal exceeds the staked balance.
    InsufficientBalance,
    /// The asset transfer service reported the failure held here.
    TransferFailed(TransferError),
}

impl Error {
    /// The number under which the host reports the error.
    pub open spec fn spec_code(self) -> u16 {
        match self {
            Error::PermissionDenied => 1,
            Error::WrongArguments => 2,
            Error::NotRequiredStake => 3,
            Error::BadTiming => 4,
            Error::InvalidContext => 5,
            Error::NegativeReward => 6,
            Error::NegativeWithdrawableReward => 7,
            Error::ArithmeticOverflow => 8,
            Error::InsufficientBalance => 9,
            Error::TransferFailed(_) => 10,
        }
    }

    /// The number under which the host reports the error.
    #[verifier::when_used_as_spec(spec_code)]
    pub fn code(self) -> (code: u16)
        ensures
            code == self.spec_code(),
    {
        match self {
            Error::PermissionDenied => 1,
            Error::WrongArguments => 2,
            Error::NotRequiredStake => 3,
            Error::BadTiming => 4,
            Error::InvalidContext => 5,
            Error::NegativeReward => 6,
            Error::NegativeWithdrawableReward => 7,
            Error::ArithmeticOverflow => 8,
            Error::InsufficientBalance => 9,
            Error::TransferFailed(_) => 10,
        }
    }
}

/// Codes tell errors of different kinds apart.
pub proof fn lemma_code_tells_kinds_apart(a: Error, b: Error)
    requires
        a.spec_code() == b.spec_code(),
    ensures
        a == b || (a is TransferFailed && b is TransferFailed),
{
}

} // verus!
