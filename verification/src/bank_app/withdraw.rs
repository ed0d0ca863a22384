//! Withdrawing native currency from the treasury.

use vstd::prelude::*;

use crate::authority::DerivedAuthority;
use crate::bank_app::error::BankAppError;
use crate::bank_app::state::BankInfo;
use crate::bank_app::state::UserReserve;
use crate::identity::Identity;
use crate::transfer_helper::sol_transfer_from_pda;
use crate::transfer_helper::AssetKind;
use crate::transfer_helper::Transfer;
use crate::transfer_helper::TransferOutcome;

verus! {

/// What one call to withdraw native currency works on.
#[derive(Clone, Copy, Debug, PartialEq, Eq)]
pub struct Withdraw {
    pub bank_info: BankInfo,
    /// The vault: a derived address that holds the pooled funds and signs
    /// for what leaves it.
    pub bank_vault: DerivedAuthority,
    /// The depositor's reserve.
    pub user_reserve: UserReserve,
    /// The depositor, who signs the call and is paid.
    pub user: Identity,
}

impl Withdraw {
    /// The transfer that pays `withdraw_amount` out of the vault to the
    /// depositor, on the vault's derived authority.
    pub open spec fn transfer(&self, withdraw_amount: u64) -> Transfer {
        Transfer {
            kind: AssetKind::Native,
            from: self.bank_vault.spec_address(),
            to: self.user,
            authority: self.bank_vault.spec_address(),
            signer: Some(self.bank_vault),
            amount: withdraw_amount,
        }
    }

    /// What a call answers: the transfer for the ledger to carry out, or why
    /// the call is refused.
    pub open spec fn requested(&self, withdraw_amount: u64) -> Result<Transfer, BankAppError> {
        match self.user_reserve.withdrawal_allowed(self.bank_info, self.bank_vault, withdraw_amount) {
            Err(e) => Err(e),
            Ok(_) => Ok(self.transfer(withdraw_amount)),
        }
    }

    /// What the ledger's answer to the transfer leaves behind.
    pub open spec fn settled(&self, withdraw_amount: u64, outcome: TransferOutcome) -> Result<
        Withdraw,
        BankAppError,
    > {
        match self.user_reserve.withdrawal_settled(
            self.bank_info,
            self.bank_vault,
            withdraw_amount,
            outcome,
        ) {
            Err(e) => Err(e),
            Ok(reserve) => Ok(Withdraw { user_reserve: reserve, ..*self }),
        }
    }

    /// Opens a withdrawal of `withdraw_amount`. Every check is made here,
    /// before any funds move; nothing is booked yet.
    pub fn process(ctx: &Withdraw, withdraw_amount: u64) -> (r: Result<Transfer, BankAppError>)
        ensures
            r == ctx.requested(withdraw_amount),
            r matches Ok(transfer) ==> transfer.well_signed(),
            ctx.bank_info.is_paused ==> r == Err::<Transfer, BankAppError>(
                BankAppError::BankAppPaused,
            ),
            !ctx.bank_info.is_paused && withdraw_amount > ctx.user_reserve.deposited_amount ==> r
                == Err::<Transfer, BankAppError>(BankAppError::InsufficientFunds),
    {
        match ctx.user_reserve.check_withdrawal(&ctx.bank_info, &ctx.bank_vault, withdraw_amount) {
            Err(e) => Err(e),
            Ok(_) => Ok(sol_transfer_from_pda(&ctx.bank_vault, &ctx.user, withdraw_amount)),
        }
    }

    /// Closes the withdrawal: takes `withdraw_amount` off the reserve where
    /// the ledger has done the transfer. On any failure nothing changes.
    pub fn settle(ctx: &mut Withdraw, withdraw_amount: u64, outcome: TransferOutcome) -> (r: Result<
        (),
        BankAppError,
    >)
        ensures
            match old(ctx).settled(withdraw_amount, outcome) {
                Ok(after) => r == Ok::<(), BankAppError>(()) && *final(ctx) == after,
                Err(e) => r == Err::<(), BankAppError>(e) && *final(ctx) == *old(ctx),
            },
            old(ctx).bank_info.is_paused ==> r == Err::<(), BankAppError>(
                BankAppError::BankAppPaused,
            ) && *final(ctx) == *old(ctx),
            !old(ctx).bank_info.is_paused && withdraw_amount > old(
                ctx,
            ).user_reserve.deposited_amount ==> r == Err::<(), BankAppError>(
                BankAppError::InsufficientFunds,
            ) && *final(ctx) == *old(ctx),
    {
        let bank = ctx.bank_info;
        let vault = ctx.bank_vault;
        ctx.user_reserve.settle_withdrawal(&bank, &vault, withdraw_amount, outcome)
    }
}

} // verus!
