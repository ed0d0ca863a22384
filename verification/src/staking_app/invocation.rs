//! Calls into the staking service by another service.
//!
//! A service that stakes pooled funds has no key to sign with. It takes the
//! staker's place with its derived authority, and passes that authority
//! along with the call, so that the ledger can check the signature.

use vstd::prelude::*;

use crate::authority::DerivedAuthority;
use crate::identity::Identity;

verus! {

/// A call to stake or unstake a token, made with a derived identity.
#[derive(Clone, Copy, Debug, PartialEq, Eq)]
pub struct StakeTokenCall {
    /// The staking service's authority over its vault.
    pub vault_authority: Identity,
    /// The token account that holds what is staked.
    pub staking_vault: Identity,
    /// Where the staking service keeps the caller's record.
    pub user_info: Identity,
    /// The caller, who stakes in its own name and signs as such.
    pub user: DerivedAuthority,
    /// Who pays for a record that has to be created.
    pub payer: Identity,
    /// The caller's token account.
    pub user_ata: Identity,
    pub amount: u64,
    pub is_stake: bool,
}

/// A call to stake or unstake native currency, made with a derived identity.
#[derive(Clone, Copy, Debug, PartialEq, Eq)]
pub struct StakeSolCall {
    /// The account that holds what is staked.
    pub staking_vault: Identity,
    /// Where the staking service keeps the caller's record.
    pub user_info: Identity,
    /// The caller, whose derived address pays or is paid, and signs.
    pub user: DerivedAuthority,
    /// Who pays for a record that has to be created.
    pub payer: Identity,
    pub amount: u64,
    pub is_stake: bool,
}

} // verus!
