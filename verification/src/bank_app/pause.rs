//! Pausing and resuming the treasury.

use vstd::prelude::*;

use crate::bank_app::error::BankAppError;
use crate::bank_app::state::BankInfo;
use crate::identity::Identity;

verus! {

/// What one call to pause or resume works on.
#[derive(Clone, Copy, Debug, PartialEq, Eq)]
pub struct Pause {
    pub bank_info: BankInfo,
    /// The caller, who signs the call.
    pub authority: Identity,
}

/// An entry for the audit log: who paused or resumed the treasury.
#[derive(Clone, Copy, Debug, PartialEq, Eq)]
pub struct PauseNotice {
    /// Who made the call.
    pub authority: Identity,
    /// Whether the treasury was paused, or else resumed.
    pub paused: bool,
}

impl Pause {
    /// Whether the caller is the treasury's authority.
    pub open spec fn authorized(&self) -> bool {
        self.authority == self.bank_info.authority
    }

    /// What a call answers: the entry for the audit log, or a refusal where
    /// the caller is not the treasury's authority.
    pub open spec fn requested(&self, pause: bool) -> Result<PauseNotice, BankAppError> {
        if self.authorized() {
            Ok(PauseNotice { authority: self.authority, paused: pause })
        } else {
            Err(BankAppError::AuthorizationFailed)
        }
    }

    /// What a call leaves behind: the flag as asked where the caller is the
    /// authority, and all as it was where not.
    pub open spec fn after(&self, pause: bool) -> Pause {
        if self.authorized() {
            Pause { bank_info: BankInfo { is_paused: pause, ..self.bank_info }, ..*self }
        } else {
            *self
        }
    }

    /// Sets the pause flag to `pause`, on the word of the treasury's
    /// authority alone. The answer is the entry to write to the audit log.
    ///
    /// Pausing is not itself stopped by a pause: a paused treasury can be
    /// resumed.
    pub fn process(ctx: &mut Pause, pause: bool) -> (r: Result<PauseNotice, BankAppError>)
        ensures
            r == old(ctx).requested(pause),
            *final(ctx) == old(ctx).after(pause),
    {
        if ctx.authority == ctx.bank_info.authority {
            ctx.bank_info.is_paused = pause;
            Ok(PauseNotice { authority: ctx.authority, paused: pause })
        } else {
            Err(BankAppError::AuthorizationFailed)
        }
    }
}

} // verus!
