//! The staking service: a record per staker that grows with time.
//!
//! A call comes in two steps, with the ledger between them. The first
//! accrues interest, checks the amount and answers with the transfer that is
//! due. The ledger carries the transfer out. The second step books the amount
//! on the record, if and only if the ledger has done the transfer.

use vstd::prelude::*;

pub mod accrual;
pub mod constant;
pub mod error;
pub mod invocation;
pub mod stake_sol;
pub mod stake_token;

pub use accrual::UserTokenInfo;
pub use error::StakingAppError;
pub use invocation::StakeSolCall;
pub use invocation::StakeTokenCall;
pub use stake_sol::StakeSol;
pub use stake_token::StakeToken;

use crate::transfer_helper::Transfer;

verus! {

/// Stakes or unstakes native currency: the first step of the call.
pub fn stake_sol(ctx: &mut StakeSol, amount: u64, is_stake: bool, now: u64) -> (r: Result<
    Option<Transfer>,
    StakingAppError,
>)
    ensures
        r == old(ctx).requested(amount, is_stake, now),
        *final(ctx) == old(ctx).accrued(now),
        r matches Ok(Some(transfer)) ==> transfer.well_signed(),
{
    StakeSol::process(ctx, amount, is_stake, now)
}

/// Stakes or unstakes a token: the first step of the call.
pub fn stake_token(ctx: &mut StakeToken, amount: u64, is_stake: bool, now: u64) -> (r: Result<
    Option<Transfer>,
    StakingAppError,
>)
    ensures
        r == old(ctx).requested(amount, is_stake, now),
        *final(ctx) == old(ctx).accrued(now),
        r matches Ok(Some(transfer)) ==> transfer.well_signed(),
{
    StakeToken::process(ctx, amount, is_stake, now)
}

} // verus!
