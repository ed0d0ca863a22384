//! Transfers, as the services ask the ledger for them.
//!
//! The services never move funds themselves. They decide that a transfer is
//! due and describe it; the ledger carries it out and reports how it went.

use vstd::prelude::*;

use crate::authority::DerivedAuthority;
use crate::identity::Identity;

verus! {

/// What a transfer moves.
#[derive(Clone, Copy, Debug, PartialEq, Eq, Structural)]
pub enum AssetKind {
    /// The ledger's native currency, held by the accounts themselves.
    Native,
    /// A fungible token, held in token accounts.
    Token,
}

/// How the ledger answered a transfer.
#[derive(Clone, Copy, Debug, PartialEq, Eq, Structural)]
pub enum TransferOutcome {
    /// The amount has moved.
    Done,
    /// The authority was not accepted; nothing has moved.
    AuthorizationFailed,
    /// The source does not hold the amount; nothing has moved.
    InsufficientBalance,
}

/// One transfer for the ledger to carry out.
#[derive(Clone, Copy, Debug, PartialEq, Eq)]
pub struct Transfer {
    pub kind: AssetKind,
    /// The account that pays.
    pub from: Identity,
    /// The account that receives.
    pub to: Identity,
    /// Who authorizes the payment.
    pub authority: Identity,
    /// Where a service authorizes it with a derived identity: the parameters
    /// to sign with. `None` where the authority signed the call itself.
    pub signer: Option<DerivedAuthority>,
    pub amount: u64,
}

impl Transfer {
    /// A derived signer, where there is one, is the authority of the transfer
    /// and reconstructs from its parameters.
    pub open spec fn well_signed(&self) -> bool {
        self.signer matches Some(signer) ==> signer.spec_address() == self.authority
            && signer.reconstructs()
    }
}

/// Native currency from a user's own account, on the user's signature.
pub fn sol_transfer_from_user(signer: &Identity, destination: &Identity, amount: u64) -> (transfer:
    Transfer)
    ensures
        transfer == (Transfer {
            kind: AssetKind::Native,
            from: *signer,
            to: *destination,
            authority: *signer,
            signer: None,
            amount,
        }),
        transfer.well_signed(),
{
    Transfer {
        kind: AssetKind::Native,
        from: *signer,
        to: *destination,
        authority: *signer,
        signer: None,
        amount,
    }
}

/// Native currency out of a derived address, which is both the account that
/// pays and the authority that signs.
pub fn sol_transfer_from_pda(source: &DerivedAuthority, destination: &Identity, amount: u64) -> (transfer:
    Transfer)
    ensures
        transfer == (Transfer {
            kind: AssetKind::Native,
            from: source.spec_address(),
            to: *destination,
            authority: source.spec_address(),
            signer: Some(*source),
            amount,
        }),
        transfer.well_signed(),
{
    proof {
        use_type_invariant(source);
    }
    let address = source.address();
    Transfer {
        kind: AssetKind::Native,
        from: address,
        to: *destination,
        authority: address,
        signer: Some(*source),
        amount,
    }
}

/// Tokens out of a user's token account, on the user's signature.
pub fn token_transfer_from_user(
    from: &Identity,
    authority: &Identity,
    to: &Identity,
    amount: u64,
) -> (transfer: Transfer)
    ensures
        transfer == (Transfer {
            kind: AssetKind::Token,
            from: *from,
            to: *to,
            authority: *authority,
            signer: None,
            amount,
        }),
        transfer.well_signed(),
{
    Transfer {
        kind: AssetKind::Token,
        from: *from,
        to: *to,
        authority: *authority,
        signer: None,
        amount,
    }
}

/// Tokens out of a token account that a derived authority governs.
pub fn token_transfer_from_pda(
    from: &Identity,
    authority: &DerivedAuthority,
    to: &Identity,
    amount: u64,
) -> (transfer: Transfer)
    ensures
        transfer == (Transfer {
            kind: AssetKind::Token,
            from: *from,
            to: *to,
            authority: authority.spec_address(),
            signer: Some(*authority),
            amount,
        }),
        transfer.well_signed(),
{
    proof {
        use_type_invariant(authority);
    }
    Transfer {
        kind: AssetKind::Token,
        from: *from,
        to: *to,
        authority: authority.address(),
        signer: Some(*authority),
        amount,
    }
}

} // verus!
