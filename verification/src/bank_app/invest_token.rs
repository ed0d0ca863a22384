//! Investing the treasury's tokens in the staking service.

use vstd::prelude::*;

use crate::authority::DerivedAuthority;
use crate::bank_app::error::BankAppError;
use crate::bank_app::state::BankInfo;
use crate::bank_app::state::Vault;
use crate::identity::Identity;
use crate::staking_app::invocation::StakeTokenCall;

verus! {

/// What one call to invest tokens, or to take them back, works on.
#[derive(Clone, Copy, Debug, PartialEq, Eq)]
pub struct InvestToken {
    /// The caller, who signs the call.
    pub authority: Identity,
    pub bank_info: BankInfo,
    /// The token account that holds the pooled funds, with its balance.
    pub bank_vault: Vault,
    /// The treasury's authority over the vault.
    pub bank_vault_authority: DerivedAuthority,
    /// The staking service's authority over its own vault.
    pub staking_vault_authority: Identity,
    /// The staking service's vault.
    pub staking_vault: Identity,
    /// Where the staking service keeps the treasury's record.
    pub user_info: Identity,
}

impl InvestToken {
    /// Whether the call may go on to the staking service.
    ///
    /// The treasury must not be paused. The caller must be its authority. A
    /// stake must not exceed what the vault holds. And the vault's authority
    /// must have the factor that the treasury signs with.
    pub open spec fn allowed(&self, amount: u64, is_stake: bool) -> Result<(), BankAppError> {
        if self.bank_info.is_paused {
            Err(BankAppError::BankAppPaused)
        } else if self.authority != self.bank_info.authority {
            Err(BankAppError::AuthorizationFailed)
        } else if is_stake && self.bank_vault.amount < amount {
            Err(BankAppError::InsufficientFunds)
        } else if self.bank_vault_authority.spec_bump() != self.bank_info.bump {
            Err(BankAppError::AuthorizationFailed)
        } else {
            Ok(())
        }
    }

    /// The call that the treasury makes: it stakes in the name of its
    /// vault's authority, out of the vault, and the caller pays the fees.
    pub open spec fn invocation(&self, amount: u64, is_stake: bool) -> StakeTokenCall {
        StakeTokenCall {
            vault_authority: self.staking_vault_authority,
            staking_vault: self.staking_vault,
            user_info: self.user_info,
            user: self.bank_vault_authority,
            payer: self.authority,
            user_ata: self.bank_vault.address,
            amount,
            is_stake,
        }
    }

    /// What a call answers: the call to make to the staking service, or why
    /// the treasury refuses.
    pub open spec fn requested(&self, amount: u64, is_stake: bool) -> Result<
        StakeTokenCall,
        BankAppError,
    > {
        match self.allowed(amount, is_stake) {
            Err(e) => Err(e),
            Ok(_) => Ok(self.invocation(amount, is_stake)),
        }
    }

    /// Stakes `amount` of the pooled funds, or takes it back. Every check is
    /// made here, before the staking service is called. The treasury keeps no
    /// books on what it has invested: only the vault's balance changes, with
    /// the transfer that the staking service asks for.
    pub fn process(ctx: &InvestToken, amount: u64, is_stake: bool) -> (r: Result<
        StakeTokenCall,
        BankAppError,
    >)
        ensures
            r == ctx.requested(amount, is_stake),
            r matches Ok(call) ==> call.user.reconstructs(),
            ctx.bank_info.is_paused ==> r == Err::<StakeTokenCall, BankAppError>(
                BankAppError::BankAppPaused,
            ),
    {
        if ctx.bank_info.is_paused {
            Err(BankAppError::BankAppPaused)
        } else if ctx.authority != ctx.bank_info.authority {
            Err(BankAppError::AuthorizationFailed)
        } else if is_stake && ctx.bank_vault.amount < amount {
            Err(BankAppError::InsufficientFunds)
        } else if ctx.bank_vault_authority.bump() != ctx.bank_info.bump {
            Err(BankAppError::AuthorizationFailed)
        } else {
            proof {
                use_type_invariant(&ctx.bank_vault_authority);
            }
            Ok(
                StakeTokenCall {
                    vault_authority: ctx.staking_vault_authority,
                    staking_vault: ctx.staking_vault,
                    user_info: ctx.user_info,
                    user: ctx.bank_vault_authority,
                    payer: ctx.authority,
                    user_ata: ctx.bank_vault.address,
                    amount,
                    is_stake,
                },
            )
        }
    }
}

} // verus!
