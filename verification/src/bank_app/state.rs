//! What the treasury keeps: its configuration and a reserve per depositor.

use vstd::prelude::*;

use crate::authority::DerivedAuthority;
use crate::bank_app::error::BankAppError;
use crate::identity::Identity;
use crate::transfer_helper::TransferOutcome;

verus! {

/// The treasury's configuration for one asset.
#[derive(Clone, Copy, Debug, PartialEq, Eq)]
pub struct BankInfo {
    /// Who may pause the treasury and invest its funds.
    pub authority: Identity,
    /// While set, no funds move.
    pub is_paused: bool,
    /// The factor of the derived authority that signs for the vault.
    pub bump: u8,
}

impl BankInfo {
    /// A treasury of `authority` that signs with `vault`, not paused.
    pub fn new(authority: Identity, vault: &DerivedAuthority) -> (bank: BankInfo)
        ensures
            bank == (BankInfo { authority, is_paused: false, bump: vault.spec_bump() }),
    {
        BankInfo { authority, is_paused: false, bump: vault.bump() }
    }
}

/// A custody account, with the balance that the ledger last reported for it.
#[derive(Clone, Copy, Debug, PartialEq, Eq)]
pub struct Vault {
    pub address: Identity,
    pub amount: u64,
}

/// What the treasury holds on behalf of one depositor, in one asset.
///
/// A reserve starts at zero and is never removed.
#[derive(Clone, Copy, Debug, PartialEq, Eq, Structural)]
pub struct UserReserve {
    pub deposited_amount: u64,
}

impl Default for UserReserve {
    fn default() -> (reserve: UserReserve)
        ensures
            reserve == (UserReserve { deposited_amount: 0 }),
    {
        UserReserve { deposited_amount: 0 }
    }
}

/// What becomes of a transfer that the ledger did not do.
pub open spec fn refusal(outcome: TransferOutcome) -> BankAppError {
    match outcome {
        TransferOutcome::AuthorizationFailed => BankAppError::AuthorizationFailed,
        _ => BankAppError::TransferFailed,
    }
}

impl UserReserve {
    /// Whether `amount` can be deposited: the treasury is not paused and the
    /// reserve stays within sixty-four bits.
    pub open spec fn deposit_allowed(&self, bank: BankInfo, amount: u64) -> Result<
        (),
        BankAppError,
    > {
        if bank.is_paused {
            Err(BankAppError::BankAppPaused)
        } else if self.deposited_amount + amount > u64::MAX {
            Err(BankAppError::Overflow)
        } else {
            Ok(())
        }
    }

    /// The reserve once the ledger has answered the deposit of `amount`.
    pub open spec fn deposit_settled(
        &self,
        bank: BankInfo,
        amount: u64,
        outcome: TransferOutcome,
    ) -> Result<UserReserve, BankAppError> {
        match self.deposit_allowed(bank, amount) {
            Err(e) => Err(e),
            Ok(_) => if outcome == TransferOutcome::Done {
                Ok(UserReserve { deposited_amount: (self.deposited_amount + amount) as u64 })
            } else {
                Err(refusal(outcome))
            },
        }
    }

    /// Whether `amount` can be withdrawn on the signature of `vault`: the
    /// treasury is not paused, the reserve holds the amount, and `vault` has
    /// the factor that the treasury signs with.
    pub open spec fn withdrawal_allowed(
        &self,
        bank: BankInfo,
        vault: DerivedAuthority,
        amount: u64,
    ) -> Result<(), BankAppError> {
        if bank.is_paused {
            Err(BankAppError::BankAppPaused)
        } else if self.deposited_amount < amount {
            Err(BankAppError::InsufficientFunds)
        } else if vault.spec_bump() != bank.bump {
            Err(BankAppError::AuthorizationFailed)
        } else {
            Ok(())
        }
    }

    /// The reserve once the ledger has answered the withdrawal of `amount`.
    pub open spec fn withdrawal_settled(
        &self,
        bank: BankInfo,
        vault: DerivedAuthority,
        amount: u64,
        outcome: TransferOutcome,
    ) -> Result<UserReserve, BankAppError> {
        match self.withdrawal_allowed(bank, vault, amount) {
            Err(e) => Err(e),
            Ok(_) => if outcome == TransferOutcome::Done {
                Ok(UserReserve { deposited_amount: (self.deposited_amount - amount) as u64 })
            } else {
                Err(refusal(outcome))
            },
        }
    }

    /// Checks a deposit of `amount` before any funds move.
    pub fn check_deposit(&self, bank: &BankInfo, amount: u64) -> (r: Result<(), BankAppError>)
        ensures
            r == self.deposit_allowed(*bank, amount),
            bank.is_paused ==> r == Err::<(), BankAppError>(BankAppError::BankAppPaused),
    {
        if bank.is_paused {
            Err(BankAppError::BankAppPaused)
        } else if amount > u64::MAX - self.deposited_amount {
            Err(BankAppError::Overflow)
        } else {
            Ok(())
        }
    }

    /// Books a deposit of `amount` once the ledger has answered it. The
    /// reserve changes only where the result is `Ok`.
    pub fn settle_deposit(&mut self, bank: &BankInfo, amount: u64, outcome: TransferOutcome) -> (r:
        Result<(), BankAppError>)
        ensures
            match old(self).deposit_settled(*bank, amount, outcome) {
                Ok(reserve) => r == Ok::<(), BankAppError>(()) && *final(self) == reserve,
                Err(e) => r == Err::<(), BankAppError>(e) && *final(self) == *old(self),
            },
            bank.is_paused ==> r == Err::<(), BankAppError>(BankAppError::BankAppPaused)
                && *final(self) == *old(self),
    {
        match self.check_deposit(bank, amount) {
            Err(e) => Err(e),
            Ok(_) => match outcome {
                TransferOutcome::Done => {
                    self.deposited_amount = self.deposited_amount + amount;
                    Ok(())
                },
                TransferOutcome::AuthorizationFailed => Err(BankAppError::AuthorizationFailed),
                TransferOutcome::InsufficientBalance => Err(BankAppError::TransferFailed),
            },
        }
    }

    /// Checks a withdrawal of `amount` before any funds move.
    pub fn check_withdrawal(&self, bank: &BankInfo, vault: &DerivedAuthority, amount: u64) -> (r:
        Result<(), BankAppError>)
        ensures
            r == self.withdrawal_allowed(*bank, *vault, amount),
            bank.is_paused ==> r == Err::<(), BankAppError>(BankAppError::BankAppPaused),
            !bank.is_paused && amount > self.deposited_amount ==> r == Err::<(), BankAppError>(
                BankAppError::InsufficientFunds,
            ),
    {
        if bank.is_paused {
            Err(BankAppError::BankAppPaused)
        } else if self.deposited_amount < amount {
            Err(BankAppError::InsufficientFunds)
        } else if vault.bump() != bank.bump {
            Err(BankAppError::AuthorizationFailed)
        } else {
            Ok(())
        }
    }

    /// Books a withdrawal of `amount` once the ledger has answered it. The
    /// reserve changes only where the result is `Ok`.
    pub fn settle_withdrawal(
        &mut self,
        bank: &BankInfo,
        vault: &DerivedAuthority,
        amount: u64,
        outcome: TransferOutcome,
    ) -> (r: Result<(), BankAppError>)
        ensures
            match old(self).withdrawal_settled(*bank, *vault, amount, outcome) {
                Ok(reserve) => r == Ok::<(), BankAppError>(()) && *final(self) == reserve,
                Err(e) => r == Err::<(), BankAppError>(e) && *final(self) == *old(self),
            },
            bank.is_paused ==> r == Err::<(), BankAppError>(BankAppError::BankAppPaused)
                && *final(self) == *old(self),
            !bank.is_paused && amount > old(self).deposited_amount ==> r == Err::<
                (),
                BankAppError,
            >(BankAppError::InsufficientFunds) && *final(self) == *old(self),
    {
        match self.check_withdrawal(bank, vault, amount) {
            Err(e) => Err(e),
            Ok(_) => match outcome {
                TransferOutcome::Done => {
                    self.deposited_amount = self.deposited_amount - amount;
                    Ok(())
                },
                TransferOutcome::AuthorizationFailed => Err(BankAppError::AuthorizationFailed),
                TransferOutcome::InsufficientBalance => Err(BankAppError::TransferFailed),
            },
        }
    }
}

/// While the treasury is paused, every deposit and every withdrawal is
/// refused as paused, whatever the amount, the signer and the ledger's
/// answer.
pub proof fn lemma_paused_refuses_deposits_and_withdrawals(
    reserve: UserReserve,
    bank: BankInfo,
    vault: DerivedAuthority,
    amount: u64,
    outcome: TransferOutcome,
)
    requires
        bank.is_paused,
    ensures
        reserve.deposit_allowed(bank, amount) == Err::<(), BankAppError>(
            BankAppError::BankAppPaused,
        ),
        reserve.deposit_settled(bank, amount, outcome) == Err::<UserReserve, BankAppError>(
            BankAppError::BankAppPaused,
        ),
        reserve.withdrawal_allowed(bank, vault, amount) == Err::<(), BankAppError>(
            BankAppError::BankAppPaused,
        ),
        reserve.withdrawal_settled(bank, vault, amount, outcome) == Err::<
            UserReserve,
            BankAppError,
        >(BankAppError::BankAppPaused),
{
}

/// While the treasury is not paused, a withdrawal of more than the reserve
/// holds is refused for want of funds, whatever the signer and the ledger's
/// answer.
pub proof fn lemma_overdraft_is_refused(
    reserve: UserReserve,
    bank: BankInfo,
    vault: DerivedAuthority,
    amount: u64,
    outcome: TransferOutcome,
)
    requires
        !bank.is_paused,
        amount > reserve.deposited_amount,
    ensures
        reserve.withdrawal_allowed(bank, vault, amount) == Err::<(), BankAppError>(
            BankAppError::InsufficientFunds,
        ),
        reserve.withdrawal_settled(bank, vault, amount, outcome) == Err::<
            UserReserve,
            BankAppError,
        >(BankAppError::InsufficientFunds),
{
}

} // verus!
