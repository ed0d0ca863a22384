//! The treasury: a pooled vault per asset and a reserve per depositor.
//!
//! A call that moves funds comes in two steps, with the ledger between
//! them. The first makes every check and answers with the transfer that is
//! due. The ledger carries the transfer out. The second step books the
//! amount on the reserve, if and only if the ledger has done the transfer.

use vstd::prelude::*;

pub mod deposit;
pub mod deposit_token;
pub mod error;
pub mod history;
pub mod initialize;
pub mod invest;
pub mod invest_token;
pub mod pause;
pub mod state;
pub mod withdraw;
pub mod withdraw_token;

pub use deposit::Deposit;
pub use deposit_token::DepositToken;
pub use error::BankAppError;
pub use history::ReserveCall;
pub use initialize::Initialize;
pub use invest::Invest;
pub use invest_token::InvestToken;
pub use pause::Pause;
pub use pause::PauseNotice;
pub use state::BankInfo;
pub use state::UserReserve;
pub use state::Vault;
pub use withdraw::Withdraw;
pub use withdraw_token::WithdrawToken;

use crate::authority::DerivedAuthority;
use crate::staking_app::invocation::StakeSolCall;
use crate::staking_app::invocation::StakeTokenCall;
use crate::transfer_helper::Transfer;

verus! {

/// Sets the treasury up for one asset.
pub fn initialize(ctx: &Initialize) -> (r: Result<(BankInfo, DerivedAuthority), BankAppError>)
    ensures
        ctx.answered(r),
{
    Initialize::process(ctx)
}

/// Stakes pooled native currency, or takes it back.
pub fn invest(ctx: &Invest, amount: u64, is_stake: bool) -> (r: Result<StakeSolCall, BankAppError>)
    ensures
        r == ctx.requested(amount, is_stake),
{
    Invest::process(ctx, amount, is_stake)
}

/// Stakes pooled tokens, or takes them back.
pub fn invest_token(ctx: &InvestToken, amount: u64, is_stake: bool) -> (r: Result<
    StakeTokenCall,
    BankAppError,
>)
    ensures
        r == ctx.requested(amount, is_stake),
{
    InvestToken::process(ctx, amount, is_stake)
}

/// Deposits native currency: the first step of the call.
pub fn deposit(ctx: &Deposit, deposit_amount: u64) -> (r: Result<Transfer, BankAppError>)
    ensures
        r == ctx.requested(deposit_amount),
{
    Deposit::process(ctx, deposit_amount)
}

/// Deposits a token: the first step of the call.
pub fn deposit_token(ctx: &DepositToken, deposit_amount: u64) -> (r: Result<
    Transfer,
    BankAppError,
>)
    ensures
        r == ctx.requested(deposit_amount),
{
    DepositToken::process(ctx, deposit_amount)
}

/// Pauses the treasury, or resumes it.
pub fn pause(ctx: &mut Pause, flag: bool) -> (r: Result<PauseNotice, BankAppError>)
    ensures
        r == old(ctx).requested(flag),
        *final(ctx) == old(ctx).after(flag),
{
    Pause::process(ctx, flag)
}

/// Withdraws native currency: the first step of the call.
pub fn withdraw(ctx: &Withdraw, withdraw_amount: u64) -> (r: Result<Transfer, BankAppError>)
    ensures
        r == ctx.requested(withdraw_amount),
{
    Withdraw::process(ctx, withdraw_amount)
}

/// Withdraws a token: the first step of the call.
pub fn withdraw_token(ctx: &WithdrawToken, withdraw_amount: u64) -> (r: Result<
    Transfer,
    BankAppError,
>)
    ensures
        r == ctx.requested(withdraw_amount),
{
    WithdrawToken::process(ctx, withdraw_amount)
}

/// While the treasury is paused, every call that would move funds is
/// refused as paused: deposits, withdrawals and investments, of either kind
/// of asset, whoever calls and whatever the amount.
pub proof fn lemma_paused_refuses_every_movement(
    deposit: Deposit,
    deposit_token: DepositToken,
    withdraw: Withdraw,
    withdraw_token: WithdrawToken,
    invest: Invest,
    invest_token: InvestToken,
    amount: u64,
    is_stake: bool,
)
    requires
        deposit.bank_info.is_paused,
        deposit_token.bank_info.is_paused,
        withdraw.bank_info.is_paused,
        withdraw_token.bank_info.is_paused,
        invest.bank_info.is_paused,
        invest_token.bank_info.is_paused,
    ensures
        deposit.requested(amount) == Err::<Transfer, BankAppError>(BankAppError::BankAppPaused),
        deposit_token.requested(amount) == Err::<Transfer, BankAppError>(
            BankAppError::BankAppPaused,
        ),
        withdraw.requested(amount) == Err::<Transfer, BankAppError>(BankAppError::BankAppPaused),
        withdraw_token.requested(amount) == Err::<Transfer, BankAppError>(
            BankAppError::BankAppPaused,
        ),
        invest.requested(amount, is_stake) == Err::<StakeSolCall, BankAppError>(
            BankAppError::BankAppPaused,
        ),
        invest_token.requested(amount, is_stake) == Err::<StakeTokenCall, BankAppError>(
            BankAppError::BankAppPaused,
        ),
{
}

} // verus!
