//! Setting the treasury up.

use vstd::prelude::*;

use crate::authority::derived_address;
use crate::authority::DerivedAuthority;
use crate::authority::VAULT_AUTHORITY;
use crate::bank_app::error::BankAppError;
use crate::bank_app::state::BankInfo;
use crate::identity::Identity;

verus! {

/// What the call that sets the treasury up works on.
#[derive(Clone, Copy, Debug, PartialEq, Eq)]
pub struct Initialize {
    /// The treasury service itself: the program that vault authorities are
    /// derived under.
    pub program: Identity,
    /// Who is to pause the treasury and to invest its funds.
    pub authority: Identity,
    /// The asset that the treasury is to hold.
    pub asset: Identity,
}

impl Initialize {
    /// The configuration of a treasury that signs with `vault`: in the hands
    /// of the given authority, and not paused.
    pub fn configure(ctx: &Initialize, vault: &DerivedAuthority) -> (bank: BankInfo)
        ensures
            bank == (BankInfo {
                authority: ctx.authority,
                is_paused: false,
                bump: vault.spec_bump(),
            }),
    {
        BankInfo::new(ctx.authority, vault)
    }

    /// What setting up answers. On success: a treasury in the hands of the
    /// given authority, not paused, that signs with the authority of its
    /// vault; and that authority, which is the one of the given program over
    /// the given asset with the largest factor that derives one. It fails
    /// only where no factor from 1 to 255 derives an authority.
    pub open spec fn answered(&self, r: Result<(BankInfo, DerivedAuthority), BankAppError>) -> bool {
        match r {
            Ok((bank, vault)) => {
                &&& bank == (BankInfo {
                    authority: self.authority,
                    is_paused: false,
                    bump: vault.spec_bump(),
                })
                &&& vault.spec_program() == self.program
                &&& vault.spec_asset() == self.asset
                &&& vault.spec_bump() >= 1
                &&& vault.is_canonical()
                &&& vault.reconstructs()
            },
            Err(e) => {
                &&& e == BankAppError::AuthorizationFailed
                &&& forall|b: u8|
                    1 <= b ==> derived_address(
                        VAULT_AUTHORITY@,
                        self.asset@,
                        b,
                        self.program@,
                    ) is None
            },
        }
    }

    /// Sets the treasury up: finds the authority of its vault, with the
    /// largest factor that derives one, and configures the treasury to sign
    /// with it.
    pub fn process(ctx: &Initialize) -> (r: Result<(BankInfo, DerivedAuthority), BankAppError>)
        ensures
            ctx.answered(r),
    {
        match DerivedAuthority::find(&ctx.program, &ctx.asset) {
            Some(vault) => {
                proof {
                    use_type_invariant(&vault);
                }
                Ok((Initialize::configure(ctx, &vault), vault))
            },
            None => Err(BankAppError::AuthorizationFailed),
        }
    }
}

} // verus!
