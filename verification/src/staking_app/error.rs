//! Why the staking service refuses a call.

use vstd::prelude::*;

verus! {

/// Why the staking service refused a call.
#[derive(Clone, Copy, Debug, PartialEq, Eq, Structural)]
pub enum StakingAppError {
    /// More was asked back than the record holds.
    InsufficientFunds,
    /// The clock reads earlier than the record's last accrual.
    InvalidTimestamp,
    /// The ledger did not accept the authority of the transfer.
    AuthorizationFailed,
    /// The ledger refused the transfer.
    TransferFailed,
    /// The record's amount would no longer fit in sixty-four bits.
    Overflow,
}

impl StakingAppError {
    /// The text shown to a caller.
    pub open spec fn spec_message(&self) -> Seq<char> {
        match self {
            StakingAppError::InsufficientFunds => "Insufficient funds for withdrawal."@,
            StakingAppError::InvalidTimestamp => "The clock is behind the last accrual."@,
            StakingAppError::AuthorizationFailed => "The transfer was not authorized."@,
            StakingAppError::TransferFailed => "The ledger refused the transfer."@,
            StakingAppError::Overflow => "The staked amount is too large."@,
        }
    }

    /// The text shown to a caller.
    pub fn message(&self) -> (text: &'static str)
        ensures
            text@ == self.spec_message(),
    {
        match self {
            StakingAppError::InsufficientFunds => "Insufficient funds for withdrawal.",
            StakingAppError::InvalidTimestamp => "The clock is behind the last accrual.",
            StakingAppError::AuthorizationFailed => "The transfer was not authorized.",
            StakingAppError::TransferFailed => "The ledger refused the transfer.",
            StakingAppError::Overflow => "The staked amount is too large.",
        }
    }
}

} // verus!
