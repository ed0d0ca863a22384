//! Derived signing identities.
//!
//! A service moves funds out of a vault without holding a key: the vault's
//! authority is an address computed from a domain tag, the asset and a
//! one-byte factor, under the service's own program identity. Whoever can
//! name the tag, the asset and the factor that give the address can sign for
//! it, and only the program that the address was derived under is allowed to.

use anchor_lang::solana_program::pubkey::Pubkey;
use anchor_lang::solana_program::pubkey::PubkeyError;
use vstd::prelude::*;

use crate::identity::Identity;

verus! {

/// The domain tag of every vault authority: the ASCII text `VAULT_AUTHORITY`.
pub const VAULT_AUTHORITY: [u8; 15] = [86, 65, 85, 76, 84, 95, 65, 85, 84, 72, 79, 82, 73, 84, 89];

/// Why `Pubkey::create_program_address` derives no address. Nothing is
/// known of a value of this type; it is only told apart from an address.
#[verifier::external_type_specification]
#[verifier::external_body]
pub struct ExPubkeyError(PubkeyError);

/// The address that the seeds `tag`, `asset` and the single byte `bump`
/// derive under `program`, or `None` where they derive none.
pub uninterp spec fn derived_address(tag: Seq<u8>, asset: Seq<u8>, bump: u8, program: Seq<u8>) -> Option<
    Seq<u8>,
>;

/// Calls `Pubkey::create_program_address` with the three seeds `tag`, the
/// bytes of `asset` and the one byte `bump`.
///
/// Trusted: that the outcome depends on the four arguments alone. It is a
/// hash of the seeds and the program's bytes, refused where the hash is a
/// point of the curve or a seed is too long. `derived_address` names it.
#[verifier::external_body]
fn create_program_address(tag: &[u8], asset: &Identity, bump: u8, program: &Identity) -> (r: Result<
    Identity,
    PubkeyError,
>)
    ensures
        derived_address(tag@, asset@, bump, program@) == match r {
            Ok(address) => Some(address@),
            Err(_) => None::<Seq<u8>>,
        },
{
    let key = Pubkey::create_program_address(
        &[tag, &asset.bytes, &[bump]],
        &Pubkey::new_from_array(program.bytes),
    )?;
    Ok(Identity { bytes: key.to_bytes() })
}

/// Calls `Pubkey::try_find_program_address` with the two seeds `tag` and the
/// bytes of `asset`.
///
/// Trusted: that it tries the factors from 255 down to 1, each as a third
/// seed of one byte, and returns the first that derives an address together
/// with that address; and `None` where none of them derives one.
#[verifier::external_body]
fn try_find_program_address(tag: &[u8], asset: &Identity, program: &Identity) -> (r: Option<
    (Identity, u8),
>)
    ensures
        match r {
            Some((address, bump)) => {
                &&& bump >= 1
                &&& derived_address(tag@, asset@, bump, program@) == Some(address@)
                &&& forall|b: u8| bump < b ==> derived_address(tag@, asset@, b, program@) is None
            },
            None => forall|b: u8| 1 <= b ==> derived_address(tag@, asset@, b, program@) is None,
        },
{
    let (key, bump) = Pubkey::try_find_program_address(
        &[tag, &asset.bytes],
        &Pubkey::new_from_array(program.bytes),
    )?;
    Some((Identity { bytes: key.to_bytes() }, bump))
}

/// A vault authority together with the parameters that reconstruct it.
///
/// A value of this type is a capability: it exists only where the tag, the
/// asset and the factor do derive the address under the program, so a
/// transfer that carries one carries a signature that reconstructs.
#[derive(Clone, Copy, Debug, PartialEq, Eq)]
pub struct DerivedAuthority {
    program: Identity,
    asset: Identity,
    bump: u8,
    address: Identity,
}

impl DerivedAuthority {
    /// The address is the one that the tag, the asset and the factor derive
    /// under the program. This holds of every authority that exists.
    #[verifier::type_invariant]
    pub open spec fn reconstructs(&self) -> bool {
        derived_address(
            VAULT_AUTHORITY@,
            self.spec_asset()@,
            self.spec_bump(),
            self.spec_program()@,
        ) == Some(self.spec_address()@)
    }

    /// The service that the authority belongs to.
    pub closed spec fn spec_program(&self) -> Identity {
        self.program
    }

    /// The asset whose vault it governs.
    pub closed spec fn spec_asset(&self) -> Identity {
        self.asset
    }

    /// The derivation factor.
    pub closed spec fn spec_bump(&self) -> u8 {
        self.bump
    }

    /// The derived address, which is the authority's identity on the ledger.
    pub closed spec fn spec_address(&self) -> Identity {
        self.address
    }

    /// No larger factor derives an address for the same program and asset.
    pub open spec fn is_canonical(&self) -> bool {
        forall|b: u8|
            self.spec_bump() < b ==> derived_address(
                VAULT_AUTHORITY@,
                self.spec_asset()@,
                b,
                self.spec_program()@,
            ) is None
    }

    #[verifier::when_used_as_spec(spec_program)]
    pub fn program(&self) -> (program: Identity)
        ensures
            program == self.spec_program(),
    {
        self.program
    }

    #[verifier::when_used_as_spec(spec_asset)]
    pub fn asset(&self) -> (asset: Identity)
        ensures
            asset == self.spec_asset(),
    {
        self.asset
    }

    #[verifier::when_used_as_spec(spec_bump)]
    pub fn bump(&self) -> (bump: u8)
        ensures
            bump == self.spec_bump(),
    {
        self.bump
    }

    #[verifier::when_used_as_spec(spec_address)]
    pub fn address(&self) -> (address: Identity)
        ensures
            address == self.spec_address(),
    {
        self.address
    }

    /// Reconstructs the authority of `program` over `asset` from the factor
    /// `bump`; `None` where the three derive no address.
    pub fn derive(program: &Identity, asset: &Identity, bump: u8) -> (r: Option<DerivedAuthority>)
        ensures
            match derived_address(VAULT_AUTHORITY@, asset@, bump, program@) {
                Some(address) => {
                    &&& r matches Some(authority)
                    &&& authority.program() == *program
                    &&& authority.asset() == *asset
                    &&& authority.bump() == bump
                    &&& authority.address()@ == address
                    &&& authority.reconstructs()
                },
                None => r is None,
            },
    {
        match create_program_address(&VAULT_AUTHORITY, asset, bump, program) {
            Ok(address) => {
                let authority = DerivedAuthority { program: *program, asset: *asset, bump, address };
                proof {
                    use_type_invariant(&authority);
                }
                Some(authority)
            },
            Err(_) => None,
        }
    }

    /// Finds the authority of `program` over `asset` with the largest factor
    /// that derives one; `None` where no factor from 1 to 255 does.
    pub fn find(program: &Identity, asset: &Identity) -> (r: Option<DerivedAuthority>)
        ensures
            match r {
                Some(authority) => {
                    &&& authority.program() == *program
                    &&& authority.asset() == *asset
                    &&& authority.bump() >= 1
                    &&& authority.is_canonical()
                    &&& authority.reconstructs()
                },
                None => forall|b: u8|
                    1 <= b ==> derived_address(VAULT_AUTHORITY@, asset@, b, program@) is None,
            },
    {
        match try_find_program_address(&VAULT_AUTHORITY, asset, program) {
            Some((address, bump)) => {
                let authority = DerivedAuthority { program: *program, asset: *asset, bump, address };
                proof {
                    use_type_invariant(&authority);
                }
                Some(authority)
            },
            None => None,
        }
    }
}

} // verus!
