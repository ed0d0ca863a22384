//! Investing the treasury's native currency in the staking service.

use vstd::prelude::*;

use crate::authority::DerivedAuthority;
use crate::bank_app::error::BankAppError;
use crate::bank_app::state::BankInfo;
use crate::identity::Identity;
use crate::staking_app::invocation::StakeSolCall;

verus! {

/// What one call to invest native currency, or to take it back, works on.
#[derive(Clone, Copy, Debug, PartialEq, Eq)]
pub struct Invest {
    /// The caller, who signs the call.
    pub authority: Identity,
    pub bank_info: BankInfo,
    /// The vault: a derived address that holds the pooled funds and signs
    /// for what leaves it.
    pub bank_vault: DerivedAuthority,
    /// What the vault holds, as the ledger last reported it.
    pub bank_vault_amount: u64,
    /// The staking service's vault.
    pub staking_vault: Identity,
    /// Where the staking service keeps the treasury's record.
    pub user_info: Identity,
}

impl Invest {
    /// Whether the call may go on to the staking service.
    ///
    /// The treasury must not be paused. The caller must be its authority. A
    /// stake must not exceed what the vault holds. And the vault must have
    /// the factor that the treasury signs with.
    pub open spec fn allowed(&self, amount: u64, is_stake: bool) -> Result<(), BankAppError> {
        if self.bank_info.is_paused {
            Err(BankAppError::BankAppPaused)
        } else if self.authority != self.bank_info.authority {
            Err(BankAppError::AuthorizationFailed)
        } else if is_stake && self.bank_vault_amount < amount {
            Err(BankAppError::InsufficientFunds)
        } else if self.bank_vault.spec_bump() != self.bank_info.bump {
            Err(BankAppError::AuthorizationFailed)
        } else {
            Ok(())
        }
    }

    /// The call that the treasury makes: its vault stakes in its own name,
    /// and the caller pays the fees.
    pub open spec fn invocation(&self, amount: u64, is_stake: bool) -> StakeSolCall {
        StakeSolCall {
            staking_vault: self.staking_vault,
            user_info: self.user_info,
            user: self.bank_vault,
            payer: self.authority,
            amount,
            is_stake,
        }
    }

    /// What a call answers: the call to make to the staking service, or why
    /// the treasury refuses.
    pub open spec fn requested(&self, amount: u64, is_stake: bool) -> Result<
        StakeSolCall,
        BankAppError,
    > {
        match self.allowed(amount, is_stake) {
            Err(e) => Err(e),
            Ok(_) => Ok(self.invocation(amount, is_stake)),
        }
    }

    /// Stakes `amount` of the pooled funds, or takes it back. Every check is
    /// made here, before the staking service is called.
    pub fn process(ctx: &Invest, amount: u64, is_stake: bool) -> (r: Result<
        StakeSolCall,
        BankAppError,
    >)
        ensures
            r == ctx.requested(amount, is_stake),
            r matches Ok(call) ==> call.user.reconstructs(),
            ctx.bank_info.is_paused ==> r == Err::<StakeSolCall, BankAppError>(
                BankAppError::BankAppPaused,
            ),
    {
        if ctx.bank_info.is_paused {
            Err(BankAppError::BankAppPaused)
        } else if ctx.authority != ctx.bank_info.authority {
            Err(BankAppError::AuthorizationFailed)
        } else if is_stake && ctx.bank_vault_amount < amount {
            Err(BankAppError::InsufficientFunds)
        } else if ctx.bank_vault.bump() != ctx.bank_info.bump {
            Err(BankAppError::AuthorizationFailed)
        } else {
            proof {
                use_type_invariant(&ctx.bank_vault);
            }
            Ok(
                StakeSolCall {
                    staking_vault: ctx.staking_vault,
                    user_info: ctx.user_info,
                    user: ctx.bank_vault,
                    payer: ctx.authority,
                    amount,
                    is_stake,
                },
            )
        }
    }
}

} // verus!
