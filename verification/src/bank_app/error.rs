//! Why the treasury refuses a call.

use vstd::prelude::*;

verus! {

/// Why the treasury refused a call.
#[derive(Clone, Copy, Debug, PartialEq, Eq, Structural)]
pub enum BankAppError {
    /// The treasury is paused.
    BankAppPaused,
    /// The amount exceeds the balance that is recorded.
    InsufficientFunds,
    /// The caller is not the treasury's authority, or the vault's derived
    /// authority is not the one that the treasury signs with.
    AuthorizationFailed,
    /// The ledger refused the transfer.
    TransferFailed,
    /// The reserve would no longer fit in sixty-four bits.
    Overflow,
}

impl BankAppError {
    /// The text shown to a caller.
    pub open spec fn spec_message(&self) -> Seq<char> {
        match self {
            BankAppError::BankAppPaused => "The bank app is currently paused."@,
            BankAppError::InsufficientFunds => "Insufficient funds for withdrawal."@,
            BankAppError::AuthorizationFailed => "The caller is not authorized."@,
            BankAppError::TransferFailed => "The ledger refused the transfer."@,
            BankAppError::Overflow => "The deposited amount is too large."@,
        }
    }

    /// The text shown to a caller.
    pub fn message(&self) -> (text: &'static str)
        ensures
            text@ == self.spec_message(),
    {
        match self {
            BankAppError::BankAppPaused => "The bank app is currently paused.",
            BankAppError::InsufficientFunds => "Insufficient funds for withdrawal.",
            BankAppError::AuthorizationFailed => "The caller is not authorized.",
            BankAppError::TransferFailed => "The ledger refused the transfer.",
            BankAppError::Overflow => "The deposited amount is too large.",
        }
    }
}

} // verus!
