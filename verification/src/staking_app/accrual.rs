//! Interest on a staked amount, and the record that it accrues on.
//!
//! Within one accrual interest is simple: the yearly rate on the amount that
//! the record held, for the seconds since the accrual before, rounded down
//! to a whole unit. What an accrual pays is added to the amount, and what is
//! lost to rounding is lost for good: a short accrual on a small amount may
//! pay nothing where one long accrual over the same time would have paid.

use vstd::prelude::*;

use crate::staking_app::constant::SECOND_PER_YEAR;
use crate::staking_app::constant::STAKING_APR;
use crate::staking_app::error::StakingAppError;
use crate::transfer_helper::TransferOutcome;

verus! {

/// The interest on `amount` at `apr` percent a year over `elapsed` seconds,
/// rounded down.
pub open spec fn interest(amount: nat, apr: nat, elapsed: nat) -> nat {
    (amount * apr * elapsed) / (100 * SECOND_PER_YEAR as nat)
}

/// Interest does not shrink as time goes on.
pub proof fn lemma_interest_monotonic(amount: nat, apr: nat, shorter: nat, longer: nat)
    requires
        shorter <= longer,
    ensures
        interest(amount, apr, shorter) <= interest(amount, apr, longer),
{
    let rate = amount * apr;
    assert(rate * shorter <= rate * longer) by (nonlinear_arith)
        requires
            shorter <= longer,
            rate >= 0,
    ;
    let year = 100 * SECOND_PER_YEAR as nat;
    assert((rate * shorter) / year <= (rate * longer) / year) by (nonlinear_arith)
        requires
            rate * shorter <= rate * longer,
            year > 0,
    ;
}

/// No time, no interest.
pub proof fn lemma_interest_of_no_time(amount: nat, apr: nat)
    ensures
        interest(amount, apr, 0) == 0,
{
    assert(amount * apr * 0 == 0) by (nonlinear_arith);
}

/// The interest on `amount` at `apr` percent a year over `elapsed` seconds,
/// or `None` where it does not fit in sixty-four bits.
pub fn compute_interest(amount: u64, apr: u64, elapsed: u64) -> (r: Option<u64>)
    ensures
        r == if interest(amount as nat, apr as nat, elapsed as nat) <= u64::MAX {
            Some(interest(amount as nat, apr as nat, elapsed as nat) as u64)
        } else {
            None
        },
{
    let year: u128 = 100 * (SECOND_PER_YEAR as u128);
    assert(amount * apr <= 0xffff_ffff_ffff_ffff * 0xffff_ffff_ffff_ffff) by (nonlinear_arith)
        requires
            amount <= 0xffff_ffff_ffff_ffff,
            apr <= 0xffff_ffff_ffff_ffff,
    ;
    let rate: u128 = (amount as u128) * (apr as u128);
    match rate.checked_mul(elapsed as u128) {
        Some(product) => {
            let whole: u128 = product / year;
            if whole <= u64::MAX as u128 {
                Some(whole as u64)
            } else {
                None
            }
        },
        None => {
            proof {
                let product = rate as nat * elapsed as nat;
                assert(product / (year as nat) >= 0x1_0000_0000_0000_0000) by (nonlinear_arith)
                    requires
                        product >= 0x1_0000_0000_0000_0000_0000_0000_0000_0000,
                        year == 3_153_600_000,
                ;
            }
            None
        },
    }
}

/// The time in seconds that a clock reading stands for. A reading before
/// the epoch is no time.
pub fn clock_seconds(unix_timestamp: i64) -> (r: Result<u64, StakingAppError>)
    ensures
        r == if unix_timestamp < 0 {
            Err::<u64, StakingAppError>(StakingAppError::InvalidTimestamp)
        } else {
            Ok::<u64, StakingAppError>(unix_timestamp as u64)
        },
{
    if unix_timestamp < 0 {
        Err(StakingAppError::InvalidTimestamp)
    } else {
        Ok(unix_timestamp as u64)
    }
}

/// What the staking service holds for one staker and one asset.
///
/// A record that was never touched has `last_update_time` 0. From the first
/// call on, it holds the time of the last accrual.
#[derive(Clone, Copy, Debug, PartialEq, Eq, Structural)]
pub struct UserTokenInfo {
    /// What was staked, with the interest accrued so far.
    pub amount: u64,
    /// When interest was last accrued, in seconds; 0 before the first call.
    pub last_update_time: u64,
}

impl Default for UserTokenInfo {
    fn default() -> (record: UserTokenInfo)
        ensures
            record == (UserTokenInfo { amount: 0, last_update_time: 0 }),
    {
        UserTokenInfo { amount: 0, last_update_time: 0 }
    }
}

impl UserTokenInfo {
    /// Whether the record has accrued before. It has from its first call
    /// on, and stays so.
    pub open spec fn is_active(&self) -> bool {
        self.last_update_time != 0
    }

    /// The seconds that an accrual at `now` pays for: none on a record that
    /// never accrued.
    pub open spec fn elapsed(&self, now: u64) -> int {
        if self.last_update_time == 0 {
            0
        } else {
            now - self.last_update_time
        }
    }

    /// The amount after an accrual at `now`, were it unbounded.
    pub open spec fn grown(&self, now: u64) -> int {
        self.amount + interest(self.amount as nat, STAKING_APR as nat, self.elapsed(now) as nat)
    }

    /// The record after an accrual at `now`.
    ///
    /// A clock that reads earlier than the last accrual is refused, and so
    /// is an amount that no longer fits.
    pub open spec fn accrued(&self, now: u64) -> Result<UserTokenInfo, StakingAppError> {
        if self.last_update_time != 0 && now < self.last_update_time {
            Err(StakingAppError::InvalidTimestamp)
        } else if self.grown(now) > u64::MAX {
            Err(StakingAppError::Overflow)
        } else {
            Ok(UserTokenInfo { amount: self.grown(now) as u64, last_update_time: now })
        }
    }

    /// Whether `amount` can be staked on, or taken from, this record.
    ///
    /// Nothing is always allowed. A stake must leave the amount within
    /// sixty-four bits; a withdrawal must not exceed it.
    pub open spec fn allows(&self, amount: u64, is_stake: bool) -> Result<(), StakingAppError> {
        if amount == 0 {
            Ok(())
        } else if is_stake {
            if self.amount + amount > u64::MAX {
                Err(StakingAppError::Overflow)
            } else {
                Ok(())
            }
        } else if self.amount < amount {
            Err(StakingAppError::InsufficientFunds)
        } else {
            Ok(())
        }
    }

    /// The record with `amount` staked on it or taken from it.
    pub open spec fn moved(&self, amount: u64, is_stake: bool) -> UserTokenInfo {
        UserTokenInfo {
            amount: if is_stake {
                (self.amount + amount) as u64
            } else {
                (self.amount - amount) as u64
            },
            last_update_time: self.last_update_time,
        }
    }

    /// The record once the ledger has answered the transfer of `amount`.
    ///
    /// The amount is booked only where the record allows it and the ledger
    /// has done the transfer.
    pub open spec fn settled(&self, amount: u64, is_stake: bool, outcome: TransferOutcome) -> Result<
        UserTokenInfo,
        StakingAppError,
    > {
        match self.allows(amount, is_stake) {
            Err(e) => Err(e),
            Ok(_) => match outcome {
                TransferOutcome::AuthorizationFailed => Err(StakingAppError::AuthorizationFailed),
                TransferOutcome::InsufficientBalance => Err(StakingAppError::TransferFailed),
                TransferOutcome::Done => Ok(self.moved(amount, is_stake)),
            },
        }
    }

    /// Accrues interest up to `now`.
    pub fn accrue(&self, now: u64) -> (r: Result<UserTokenInfo, StakingAppError>)
        ensures
            r == self.accrued(now),
    {
        let elapsed: u64 = if self.last_update_time == 0 {
            0
        } else if now < self.last_update_time {
            return Err(StakingAppError::InvalidTimestamp);
        } else {
            now - self.last_update_time
        };
        match compute_interest(self.amount, STAKING_APR, elapsed) {
            Some(earned) => match self.amount.checked_add(earned) {
                Some(amount) => Ok(UserTokenInfo { amount, last_update_time: now }),
                None => Err(StakingAppError::Overflow),
            },
            None => Err(StakingAppError::Overflow),
        }
    }

    /// Checks that `amount` can be staked on, or taken from, this record.
    pub fn check(&self, amount: u64, is_stake: bool) -> (r: Result<(), StakingAppError>)
        ensures
            r == self.allows(amount, is_stake),
    {
        if amount == 0 {
            Ok(())
        } else if is_stake {
            if amount > u64::MAX - self.amount {
                Err(StakingAppError::Overflow)
            } else {
                Ok(())
            }
        } else if self.amount < amount {
            Err(StakingAppError::InsufficientFunds)
        } else {
            Ok(())
        }
    }

    /// Books the transfer of `amount` once the ledger has answered it. The
    /// record changes only where the result is `Ok`.
    pub fn settle(&mut self, amount: u64, is_stake: bool, outcome: TransferOutcome) -> (r: Result<
        (),
        StakingAppError,
    >)
        ensures
            match old(self).settled(amount, is_stake, outcome) {
                Ok(record) => r == Ok::<(), StakingAppError>(()) && *final(self) == record,
                Err(e) => r == Err::<(), StakingAppError>(e) && *final(self) == *old(self),
            },
    {
        match self.check(amount, is_stake) {
            Err(e) => Err(e),
            Ok(_) => match outcome {
                TransferOutcome::AuthorizationFailed => Err(StakingAppError::AuthorizationFailed),
                TransferOutcome::InsufficientBalance => Err(StakingAppError::TransferFailed),
                TransferOutcome::Done => {
                    if is_stake {
                        self.amount = self.amount + amount;
                    } else {
                        self.amount = self.amount - amount;
                    }
                    Ok(())
                },
            },
        }
    }
}

/// A second accrual at the same time changes nothing.
pub proof fn lemma_accrue_idempotent(record: UserTokenInfo, now: u64)
    requires
        record.accrued(now) is Ok,
    ensures
        record.accrued(now)->Ok_0.accrued(now) == record.accrued(now),
{
    let once = record.accrued(now)->Ok_0;
    lemma_interest_of_no_time(once.amount as nat, STAKING_APR as nat);
}

/// An accrual never lowers the amount, and leaves the record at `now`. A
/// record that was active stays active.
pub proof fn lemma_accrue_grows(record: UserTokenInfo, now: u64)
    requires
        record.accrued(now) is Ok,
    ensures
        record.accrued(now)->Ok_0.amount >= record.amount,
        record.accrued(now)->Ok_0.last_update_time == now,
        record.is_active() ==> record.accrued(now)->Ok_0.is_active(),
{
}

/// Staking an amount and taking it back at the same time leaves the record
/// as the accrual before the stake left it: no interest in between.
pub proof fn lemma_stake_then_unstake_restores(record: UserTokenInfo, amount: u64, now: u64)
    requires
        record.accrued(now) is Ok,
        record.accrued(now)->Ok_0.allows(amount, true) is Ok,
    ensures
        ({
            let accrued = record.accrued(now)->Ok_0;
            let staked = accrued.moved(amount, true);
            &&& staked.accrued(now) == Ok::<UserTokenInfo, StakingAppError>(staked)
            &&& staked.allows(amount, false) is Ok
            &&& staked.moved(amount, false) == accrued
        }),
{
    let accrued = record.accrued(now)->Ok_0;
    let staked = accrued.moved(amount, true);
    lemma_interest_of_no_time(staked.amount as nat, STAKING_APR as nat);
}

} // verus!
