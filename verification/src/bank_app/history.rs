//! A reserve over a whole history of deposits and withdrawals.
//!
//! The reserve is what was deposited less what was withdrawn, counting the
//! calls that went through and no others.

use vstd::prelude::*;

use crate::authority::DerivedAuthority;
use crate::bank_app::error::BankAppError;
use crate::bank_app::state::BankInfo;
use crate::bank_app::state::UserReserve;
use crate::transfer_helper::TransferOutcome;

verus! {

/// One call on a reserve, from its opening to the ledger's answer.
#[derive(Clone, Copy, Debug, PartialEq, Eq)]
pub enum ReserveCall {
    /// A deposit of `amount`, and how the ledger answered the transfer.
    Deposit { amount: u64, outcome: TransferOutcome },
    /// A withdrawal of `amount` on the signature of `vault`, and how the
    /// ledger answered the transfer.
    Withdraw { amount: u64, vault: DerivedAuthority, outcome: TransferOutcome },
}

impl ReserveCall {
    /// Whether the call goes through on `reserve`: it is allowed and the
    /// ledger does the transfer.
    pub open spec fn goes_through(&self, bank: BankInfo, reserve: UserReserve) -> bool {
        match *self {
            ReserveCall::Deposit { amount, outcome } => reserve.deposit_settled(
                bank,
                amount,
                outcome,
            ) is Ok,
            ReserveCall::Withdraw { amount, vault, outcome } => reserve.withdrawal_settled(
                bank,
                vault,
                amount,
                outcome,
            ) is Ok,
        }
    }

    /// What the call adds to `reserve`: its amount where it is a deposit
    /// that goes through, else nothing.
    pub open spec fn paid_in(&self, bank: BankInfo, reserve: UserReserve) -> nat {
        match *self {
            ReserveCall::Deposit { amount, .. } if self.goes_through(bank, reserve) => amount as nat,
            _ => 0,
        }
    }

    /// What the call takes off `reserve`: its amount where it is a
    /// withdrawal that goes through, else nothing.
    pub open spec fn paid_out(&self, bank: BankInfo, reserve: UserReserve) -> nat {
        match *self {
            ReserveCall::Withdraw { amount, .. } if self.goes_through(bank, reserve) => amount as nat,
            _ => 0,
        }
    }
}

impl UserReserve {
    /// The reserve after `call`, whether it went through or not.
    pub open spec fn after(&self, bank: BankInfo, call: ReserveCall) -> UserReserve {
        match call {
            ReserveCall::Deposit { amount, outcome } => match self.deposit_settled(
                bank,
                amount,
                outcome,
            ) {
                Ok(reserve) => reserve,
                Err(_) => *self,
            },
            ReserveCall::Withdraw { amount, vault, outcome } => match self.withdrawal_settled(
                bank,
                vault,
                amount,
                outcome,
            ) {
                Ok(reserve) => reserve,
                Err(_) => *self,
            },
        }
    }

    /// The reserve after `calls`, one after the other, under a
    /// configuration that stays as it is.
    pub open spec fn replay(&self, bank: BankInfo, calls: Seq<ReserveCall>) -> UserReserve
        decreases calls.len(),
    {
        if calls.len() == 0 {
            *self
        } else {
            self.replay(bank, calls.drop_last()).after(bank, calls.last())
        }
    }

    /// All that the deposits among `calls` paid in.
    pub open spec fn total_deposited(&self, bank: BankInfo, calls: Seq<ReserveCall>) -> nat
        decreases calls.len(),
    {
        if calls.len() == 0 {
            0
        } else {
            self.total_deposited(bank, calls.drop_last()) + calls.last().paid_in(
                bank,
                self.replay(bank, calls.drop_last()),
            )
        }
    }

    /// All that the withdrawals among `calls` paid out.
    pub open spec fn total_withdrawn(&self, bank: BankInfo, calls: Seq<ReserveCall>) -> nat
        decreases calls.len(),
    {
        if calls.len() == 0 {
            0
        } else {
            self.total_withdrawn(bank, calls.drop_last()) + calls.last().paid_out(
                bank,
                self.replay(bank, calls.drop_last()),
            )
        }
    }
}

impl UserReserve {
    /// Carries `call` out on the reserve, from its checks to its booking.
    pub fn apply(&mut self, bank: &BankInfo, call: &ReserveCall) -> (r: Result<(), BankAppError>)
        ensures
            *final(self) == old(self).after(*bank, *call),
            r is Ok <==> call.goes_through(*bank, *old(self)),
    {
        match call {
            ReserveCall::Deposit { amount, outcome } => self.settle_deposit(bank, *amount, *outcome),
            ReserveCall::Withdraw { amount, vault, outcome } => self.settle_withdrawal(
                bank,
                vault,
                *amount,
                *outcome,
            ),
        }
    }

    /// Carries `calls` out on the reserve, one after the other, and counts
    /// those that went through.
    pub fn apply_all(&mut self, bank: &BankInfo, calls: &Vec<ReserveCall>) -> (done: usize)
        ensures
            *final(self) == old(self).replay(*bank, calls@),
            done <= calls.len(),
    {
        let mut done: usize = 0;
        let mut i: usize = 0;
        while i < calls.len()
            invariant
                i <= calls.len(),
                done <= i,
                *self == old(self).replay(*bank, calls@.take(i as int)),
            decreases calls.len() - i,
        {
            proof {
                let next = calls@.take(i + 1);
                assert(next.drop_last() =~= calls@.take(i as int));
                assert(next.last() == calls@[i as int]);
            }
            if self.apply(bank, &calls[i]).is_ok() {
                done += 1;
            }
            i += 1;
        }
        proof {
            assert(calls@.take(calls.len() as int) =~= calls@);
        }
        done
    }
}

/// After any history of deposits and withdrawals, under a configuration that
/// stays as it is, the reserve is what it was, plus all that was deposited,
/// less all that was withdrawn; and never was more withdrawn than that.
pub proof fn lemma_reserve_is_deposits_less_withdrawals(
    start: UserReserve,
    bank: BankInfo,
    calls: Seq<ReserveCall>,
)
    ensures
        start.replay(bank, calls).deposited_amount == start.deposited_amount
            + start.total_deposited(bank, calls) - start.total_withdrawn(bank, calls),
        start.total_withdrawn(bank, calls) <= start.deposited_amount + start.total_deposited(
            bank,
            calls,
        ),
    decreases calls.len(),
{
    if calls.len() > 0 {
        lemma_reserve_is_deposits_less_withdrawals(start, bank, calls.drop_last());
    }
}

/// While the treasury is paused, no history changes a reserve.
pub proof fn lemma_paused_reserve_stays(start: UserReserve, bank: BankInfo, calls: Seq<ReserveCall>)
    requires
        bank.is_paused,
    ensures
        start.replay(bank, calls) == start,
    decreases calls.len(),
{
    if calls.len() > 0 {
        lemma_paused_reserve_stays(start, bank, calls.drop_last());
    }
}

} // verus!
