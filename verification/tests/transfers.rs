use anchor_lang::solana_program::pubkey::Pubkey;
use bank_staking::authority::DerivedAuthority;
use bank_staking::identity::Identity;
use bank_staking::transfer_helper::sol_transfer_from_pda;
use bank_staking::transfer_helper::sol_transfer_from_user;
use bank_staking::transfer_helper::token_transfer_from_pda;
use bank_staking::transfer_helper::token_transfer_from_user;
use bank_staking::transfer_helper::AssetKind;
use bank_staking::transfer_helper::Transfer;

fn id(byte: u8) -> Identity {
    Identity::new([byte; 32])
}

#[test]
fn native_transfer_from_a_user() {
    assert_eq!(
        sol_transfer_from_user(&id(1), &id(2), 30),
        Transfer {
            kind: AssetKind::Native,
            from: id(1),
            to: id(2),
            authority: id(1),
            signer: None,
            amount: 30,
        }
    );
}

#[test]
fn native_transfer_from_a_derived_address() {
    let source = DerivedAuthority::find(&id(8), &id(9)).unwrap();
    assert_eq!(
        sol_transfer_from_pda(&source, &id(2), 31),
        Transfer {
            kind: AssetKind::Native,
            from: source.address(),
            to: id(2),
            authority: source.address(),
            signer: Some(source),
            amount: 31,
        }
    );
}

#[test]
fn token_transfer_from_a_user() {
    assert_eq!(
        token_transfer_from_user(&id(1), &id(2), &id(3), 32),
        Transfer {
            kind: AssetKind::Token,
            from: id(1),
            to: id(3),
            authority: id(2),
            signer: None,
            amount: 32,
        }
    );
}

#[test]
fn token_transfer_from_a_derived_authority() {
    let authority = DerivedAuthority::find(&id(8), &id(9)).unwrap();
    assert_eq!(
        token_transfer_from_pda(&id(1), &authority, &id(3), 33),
        Transfer {
            kind: AssetKind::Token,
            from: id(1),
            to: id(3),
            authority: authority.address(),
            signer: Some(authority),
            amount: 33,
        }
    );
}

#[test]
fn a_derived_signer_reconstructs_its_authority() {
    let authority = DerivedAuthority::find(&id(8), &id(9)).unwrap();
    let transfer = token_transfer_from_pda(&id(1), &authority, &id(3), 1);
    let signer = transfer.signer.unwrap();
    let key = Pubkey::create_program_address(
        &[&b"VAULT_AUTHORITY"[..], &signer.asset().bytes[..], &[signer.bump()][..]],
        &Pubkey::new_from_array(signer.program().bytes),
    )
    .unwrap();
    assert_eq!(transfer.authority.bytes, key.to_bytes());
}
