//! Staking and unstaking the native currency.

use vstd::prelude::*;

use crate::authority::DerivedAuthority;
use crate::identity::Identity;
use crate::staking_app::accrual::UserTokenInfo;
use crate::staking_app::error::StakingAppError;
use crate::transfer_helper::sol_transfer_from_pda;
use crate::transfer_helper::sol_transfer_from_user;
use crate::transfer_helper::AssetKind;
use crate::transfer_helper::Transfer;
use crate::transfer_helper::TransferOutcome;

verus! {

/// What one call to stake or unstake native currency works on.
#[derive(Clone, Copy, Debug, PartialEq, Eq)]
pub struct StakeSol {
    /// The staking vault: a derived address that holds what is staked and
    /// signs for what leaves it.
    pub staking_vault: DerivedAuthority,
    /// The staker's record.
    pub user_info: UserTokenInfo,
    /// The staker, who signs the call and pays or is paid.
    pub user: Identity,
}

impl StakeSol {
    /// The transfer that moves `amount`: on a stake from the staker into the
    /// vault, on the staker's own signature; else out of the vault back to
    /// the staker, on the vault's derived authority.
    pub open spec fn transfer(&self, amount: u64, is_stake: bool) -> Transfer {
        if is_stake {
            Transfer {
                kind: AssetKind::Native,
                from: self.user,
                to: self.staking_vault.spec_address(),
                authority: self.user,
                signer: None,
                amount,
            }
        } else {
            Transfer {
                kind: AssetKind::Native,
                from: self.staking_vault.spec_address(),
                to: self.user,
                authority: self.staking_vault.spec_address(),
                signer: Some(self.staking_vault),
                amount,
            }
        }
    }

    /// What a call at `now` answers: the transfer that the ledger is to carry
    /// out, `None` where nothing is to move, or why the call is refused.
    pub open spec fn requested(&self, amount: u64, is_stake: bool, now: u64) -> Result<
        Option<Transfer>,
        StakingAppError,
    > {
        match self.user_info.accrued(now) {
            Err(e) => Err(e),
            Ok(record) => match record.allows(amount, is_stake) {
                Err(e) => Err(e),
                Ok(_) => Ok(
                    if amount == 0 {
                        None
                    } else {
                        Some(self.transfer(amount, is_stake))
                    },
                ),
            },
        }
    }

    /// What a call at `now` leaves behind: the record with its interest
    /// accrued, whether or not the amount is then allowed; all as it was
    /// where the accrual itself is refused.
    pub open spec fn accrued(&self, now: u64) -> StakeSol {
        match self.user_info.accrued(now) {
            Err(_) => *self,
            Ok(record) => StakeSol { user_info: record, ..*self },
        }
    }

    /// What the ledger's answer to the transfer leaves behind.
    pub open spec fn settled(&self, amount: u64, is_stake: bool, outcome: TransferOutcome) -> Result<
        StakeSol,
        StakingAppError,
    > {
        match self.user_info.settled(amount, is_stake, outcome) {
            Err(e) => Err(e),
            Ok(record) => Ok(StakeSol { user_info: record, ..*self }),
        }
    }

    /// Opens a call to stake `amount`, or to unstake it, at the time `now`.
    ///
    /// Interest is accrued first, whatever the amount and the direction.
    /// Then the amount is checked against the accrued record. The answer is
    /// the transfer for the ledger to carry out; `settle` books it once the
    /// ledger has answered.
    pub fn process(ctx: &mut StakeSol, amount: u64, is_stake: bool, now: u64) -> (r: Result<
        Option<Transfer>,
        StakingAppError,
    >)
        ensures
            r == old(ctx).requested(amount, is_stake, now),
            *final(ctx) == old(ctx).accrued(now),
            r matches Ok(Some(transfer)) ==> transfer.well_signed(),
            // Asking back more than the accrued record holds fails after the accrual.
            old(ctx).user_info.accrued(now) matches Ok(record) ==> (!is_stake && amount
                > record.amount ==> r == Err::<Option<Transfer>, StakingAppError>(
                StakingAppError::InsufficientFunds,
            ) && final(ctx).user_info == record),
    {
        match ctx.user_info.accrue(now) {
            Err(e) => Err(e),
            Ok(record) => {
                ctx.user_info = record;
                match record.check(amount, is_stake) {
                    Err(e) => Err(e),
                    Ok(_) => {
                        if amount == 0 {
                            Ok(None)
                        } else if is_stake {
                            let vault = ctx.staking_vault.address();
                            Ok(Some(sol_transfer_from_user(&ctx.user, &vault, amount)))
                        } else {
                            Ok(Some(sol_transfer_from_pda(&ctx.staking_vault, &ctx.user, amount)))
                        }
                    },
                }
            },
        }
    }

    /// Closes the call: books `amount` on the record where the ledger has
    /// done the transfer. On any failure nothing changes.
    pub fn settle(ctx: &mut StakeSol, amount: u64, is_stake: bool, outcome: TransferOutcome) -> (r:
        Result<(), StakingAppError>)
        ensures
            match old(ctx).settled(amount, is_stake, outcome) {
                Ok(after) => r == Ok::<(), StakingAppError>(()) && *final(ctx) == after,
                Err(e) => r == Err::<(), StakingAppError>(e) && *final(ctx) == *old(ctx),
            },
    {
        ctx.user_info.settle(amount, is_stake, outcome)
    }
}

} // verus!
