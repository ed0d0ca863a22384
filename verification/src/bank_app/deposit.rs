//! Depositing native currency into the treasury.

use vstd::prelude::*;

use crate::bank_app::error::BankAppError;
use crate::bank_app::state::BankInfo;
use crate::bank_app::state::UserReserve;
use crate::identity::Identity;
use crate::transfer_helper::sol_transfer_from_user;
use crate::transfer_helper::AssetKind;
use crate::transfer_helper::Transfer;
use crate::transfer_helper::TransferOutcome;

verus! {

/// What one call to deposit native currency works on.
#[derive(Clone, Copy, Debug, PartialEq, Eq)]
pub struct Deposit {
    pub bank_info: BankInfo,
    /// The account that holds the pooled funds.
    pub bank_vault: Identity,
    /// The depositor's reserve.
    pub user_reserve: UserReserve,
    /// The depositor, who signs the call and pays.
    pub user: Identity,
}

impl Deposit {
    /// The transfer that pays `deposit_amount` from the depositor into the
    /// vault, on the depositor's own signature.
    pub open spec fn transfer(&self, deposit_amount: u64) -> Transfer {
        Transfer {
            kind: AssetKind::Native,
            from: self.user,
            to: self.bank_vault,
            authority: self.user,
            signer: None,
            amount: deposit_amount,
        }
    }

    /// What a call answers: the transfer for the ledger to carry out, or why
    /// the call is refused.
    pub open spec fn requested(&self, deposit_amount: u64) -> Result<Transfer, BankAppError> {
        match self.user_reserve.deposit_allowed(self.bank_info, deposit_amount) {
            Err(e) => Err(e),
            Ok(_) => Ok(self.transfer(deposit_amount)),
        }
    }

    /// What the ledger's answer to the transfer leaves behind.
    pub open spec fn settled(&self, deposit_amount: u64, outcome: TransferOutcome) -> Result<
        Deposit,
        BankAppError,
    > {
        match self.user_reserve.deposit_settled(self.bank_info, deposit_amount, outcome) {
            Err(e) => Err(e),
            Ok(reserve) => Ok(Deposit { user_reserve: reserve, ..*self }),
        }
    }

    /// Opens a deposit of `deposit_amount`. Every check is made here, before
    /// any funds move; nothing is booked yet.
    pub fn process(ctx: &Deposit, deposit_amount: u64) -> (r: Result<Transfer, BankAppError>)
        ensures
            r == ctx.requested(deposit_amount),
            r matches Ok(transfer) ==> transfer.well_signed(),
            ctx.bank_info.is_paused ==> r == Err::<Transfer, BankAppError>(
                BankAppError::BankAppPaused,
            ),
    {
        match ctx.user_reserve.check_deposit(&ctx.bank_info, deposit_amount) {
            Err(e) => Err(e),
            Ok(_) => Ok(sol_transfer_from_user(&ctx.user, &ctx.bank_vault, deposit_amount)),
        }
    }

    /// Closes the deposit: adds `deposit_amount` to the reserve where the
    /// ledger has done the transfer. On any failure nothing changes.
    pub fn settle(ctx: &mut Deposit, deposit_amount: u64, outcome: TransferOutcome) -> (r: Result<
        (),
        BankAppError,
    >)
        ensures
            match old(ctx).settled(deposit_amount, outcome) {
                Ok(after) => r == Ok::<(), BankAppError>(()) && *final(ctx) == after,
                Err(e) => r == Err::<(), BankAppError>(e) && *final(ctx) == *old(ctx),
            },
            old(ctx).bank_info.is_paused ==> r == Err::<(), BankAppError>(
                BankAppError::BankAppPaused,
            ) && *final(ctx) == *old(ctx),
    {
        let bank = ctx.bank_info;
        ctx.user_reserve.settle_deposit(&bank, deposit_amount, outcome)
    }
}

} // verus!
