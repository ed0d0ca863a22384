use bank_staking::authority::DerivedAuthority;
use bank_staking::bank_app::deposit;
use bank_staking::bank_app::deposit_token;
use bank_staking::bank_app::initialize;
use bank_staking::bank_app::invest;
use bank_staking::bank_app::invest_token;
use bank_staking::bank_app::pause;
use bank_staking::bank_app::withdraw;
use bank_staking::bank_app::withdraw_token;
use bank_staking::bank_app::BankAppError;
use bank_staking::bank_app::BankInfo;
use bank_staking::bank_app::Deposit;
use bank_staking::bank_app::DepositToken;
use bank_staking::bank_app::Initialize;
use bank_staking::bank_app::Invest;
use bank_staking::bank_app::InvestToken;
use bank_staking::bank_app::Pause;
use bank_staking::bank_app::PauseNotice;
use bank_staking::bank_app::ReserveCall;
use bank_staking::bank_app::UserReserve;
use bank_staking::bank_app::Vault;
use bank_staking::bank_app::Withdraw;
use bank_staking::bank_app::WithdrawToken;
use bank_staking::identity::Identity;
use bank_staking::staking_app::StakeSolCall;
use bank_staking::staking_app::StakeToken;
use bank_staking::staking_app::StakeTokenCall;
use bank_staking::staking_app::UserTokenInfo;
use bank_staking::transfer_helper::AssetKind;
use bank_staking::transfer_helper::Transfer;
use bank_staking::transfer_helper::TransferOutcome;

fn id(byte: u8) -> Identity {
    Identity::new([byte; 32])
}

const BANK: u8 = 200;
const STAKING: u8 = 100;
const MINT: u8 = 50;
const OWNER: u8 = 9;

fn vault_authority() -> DerivedAuthority {
    DerivedAuthority::find(&id(BANK), &id(MINT)).unwrap()
}

/// An authority of the same program over another asset, with another factor.
fn other_authority() -> DerivedAuthority {
    let signs = vault_authority().bump();
    let mut asset = 0u8;
    loop {
        let found = DerivedAuthority::find(&id(BANK), &id(asset)).unwrap();
        if found.bump() != signs {
            return found;
        }
        asset += 1;
    }
}

fn bank(is_paused: bool) -> BankInfo {
    BankInfo { authority: id(OWNER), is_paused, bump: vault_authority().bump() }
}

fn token_deposit(is_paused: bool, deposited_amount: u64) -> DepositToken {
    DepositToken {
        bank_info: bank(is_paused),
        bank_ata: id(1),
        user_reserve: UserReserve { deposited_amount },
        user_ata: id(3),
        user: id(2),
    }
}

fn token_withdrawal(is_paused: bool, deposited_amount: u64) -> WithdrawToken {
    WithdrawToken {
        bank_info: bank(is_paused),
        bank_vault: vault_authority(),
        bank_ata: id(1),
        user_reserve: UserReserve { deposited_amount },
        user_ata: id(3),
        user: id(2),
    }
}

fn token_investment(is_paused: bool, amount: u64) -> InvestToken {
    InvestToken {
        authority: id(OWNER),
        bank_info: bank(is_paused),
        bank_vault: Vault { address: id(1), amount },
        bank_vault_authority: vault_authority(),
        staking_vault_authority: id(60),
        staking_vault: id(61),
        user_info: id(62),
    }
}

#[test]
fn initialize_configures_an_open_treasury() {
    let ctx = Initialize { program: id(BANK), authority: id(OWNER), asset: id(MINT) };
    let (info, vault) = initialize(&ctx).unwrap();
    assert_eq!(info, BankInfo { authority: id(OWNER), is_paused: false, bump: vault.bump() });
    assert_eq!(vault, vault_authority());
    assert_eq!(vault.program(), id(BANK));
    assert_eq!(vault.asset(), id(MINT));
    assert_eq!(Initialize::process(&ctx), Ok((info, vault)));
    assert_eq!(Initialize::configure(&ctx, &vault), info);
    assert_eq!(BankInfo::new(id(OWNER), &vault), info);
}

#[test]
fn deposit_adds_to_the_reserve_once_the_ledger_has_paid() {
    let mut ctx = token_deposit(false, 10);
    let transfer = DepositToken::process(&ctx, 90).unwrap();
    assert_eq!(
        transfer,
        Transfer {
            kind: AssetKind::Token,
            from: id(3),
            to: id(1),
            authority: id(2),
            signer: None,
            amount: 90,
        }
    );
    // Nothing is booked before the ledger has answered.
    assert_eq!(ctx, token_deposit(false, 10));
    assert_eq!(DepositToken::settle(&mut ctx, 90, TransferOutcome::Done), Ok(()));
    assert_eq!(ctx, token_deposit(false, 100));
}

#[test]
fn deposit_that_the_ledger_refuses_books_nothing() {
    let mut ctx = token_deposit(false, 10);
    assert_eq!(
        DepositToken::settle(&mut ctx, 90, TransferOutcome::InsufficientBalance),
        Err(BankAppError::TransferFailed)
    );
    assert_eq!(ctx, token_deposit(false, 10));
    assert_eq!(
        DepositToken::settle(&mut ctx, 90, TransferOutcome::AuthorizationFailed),
        Err(BankAppError::AuthorizationFailed)
    );
    assert_eq!(ctx, token_deposit(false, 10));
}

#[test]
fn deposit_beyond_sixty_four_bits_is_refused() {
    let mut ctx = token_deposit(false, u64::MAX - 5);
    assert_eq!(DepositToken::process(&ctx, 6), Err(BankAppError::Overflow));
    assert_eq!(DepositToken::settle(&mut ctx, 6, TransferOutcome::Done), Err(BankAppError::Overflow));
    assert_eq!(ctx, token_deposit(false, u64::MAX - 5));
    assert!(DepositToken::process(&ctx, 5).is_ok());
    assert_eq!(DepositToken::settle(&mut ctx, 5, TransferOutcome::Done), Ok(()));
    assert_eq!(ctx.user_reserve.deposited_amount, u64::MAX);
}

#[test]
fn native_deposit_pays_the_vault_account() {
    let mut ctx = Deposit {
        bank_info: bank(false),
        bank_vault: vault_authority().address(),
        user_reserve: UserReserve::default(),
        user: id(2),
    };
    assert_eq!(
        deposit(&ctx, 12),
        Ok(Transfer {
            kind: AssetKind::Native,
            from: id(2),
            to: vault_authority().address(),
            authority: id(2),
            signer: None,
            amount: 12,
        })
    );
    assert_eq!(deposit(&ctx, 12), Deposit::process(&ctx, 12));
    assert_eq!(Deposit::settle(&mut ctx, 12, TransferOutcome::Done), Ok(()));
    assert_eq!(ctx.user_reserve, UserReserve { deposited_amount: 12 });
    assert_eq!(
        Deposit::settle(&mut ctx, 1, TransferOutcome::InsufficientBalance),
        Err(BankAppError::TransferFailed)
    );
    assert_eq!(ctx.user_reserve, UserReserve { deposited_amount: 12 });
    ctx.bank_info.is_paused = true;
    assert_eq!(deposit(&ctx, 12), Err(BankAppError::BankAppPaused));
    assert_eq!(Deposit::settle(&mut ctx, 12, TransferOutcome::Done), Err(BankAppError::BankAppPaused));
    assert_eq!(ctx.user_reserve, UserReserve { deposited_amount: 12 });
}

#[test]
fn withdraw_takes_off_the_reserve_once_the_ledger_has_paid() {
    let mut ctx = token_withdrawal(false, 100);
    let transfer = WithdrawToken::process(&ctx, 40).unwrap();
    let vault = vault_authority();
    assert_eq!(
        transfer,
        Transfer {
            kind: AssetKind::Token,
            from: id(1),
            to: id(3),
            authority: vault.address(),
            signer: Some(vault),
            amount: 40,
        }
    );
    assert_eq!(ctx, token_withdrawal(false, 100));
    assert_eq!(WithdrawToken::settle(&mut ctx, 40, TransferOutcome::Done), Ok(()));
    assert_eq!(ctx, token_withdrawal(false, 60));
    // All that is left can go, down to zero.
    assert!(WithdrawToken::process(&ctx, 60).is_ok());
    assert_eq!(WithdrawToken::settle(&mut ctx, 60, TransferOutcome::Done), Ok(()));
    assert_eq!(ctx, token_withdrawal(false, 0));
    assert!(WithdrawToken::process(&ctx, 0).is_ok());
}

#[test]
fn withdraw_of_more_than_deposited_fails_and_changes_nothing() {
    let mut ctx = token_withdrawal(false, 100);
    assert_eq!(WithdrawToken::process(&ctx, 101), Err(BankAppError::InsufficientFunds));
    assert_eq!(withdraw_token(&ctx, u64::MAX), Err(BankAppError::InsufficientFunds));
    assert_eq!(
        WithdrawToken::settle(&mut ctx, 101, TransferOutcome::Done),
        Err(BankAppError::InsufficientFunds)
    );
    assert_eq!(ctx, token_withdrawal(false, 100));
    let mut empty = token_withdrawal(false, 0);
    assert_eq!(WithdrawToken::process(&empty, 1), Err(BankAppError::InsufficientFunds));
    assert_eq!(
        WithdrawToken::settle(&mut empty, 1, TransferOutcome::InsufficientBalance),
        Err(BankAppError::InsufficientFunds)
    );
    assert_eq!(empty, token_withdrawal(false, 0));
}

#[test]
fn withdraw_that_the_ledger_refuses_books_nothing() {
    let mut ctx = token_withdrawal(false, 100);
    assert_eq!(
        WithdrawToken::settle(&mut ctx, 40, TransferOutcome::InsufficientBalance),
        Err(BankAppError::TransferFailed)
    );
    assert_eq!(
        WithdrawToken::settle(&mut ctx, 40, TransferOutcome::AuthorizationFailed),
        Err(BankAppError::AuthorizationFailed)
    );
    assert_eq!(ctx, token_withdrawal(false, 100));
}

#[test]
fn withdraw_needs_the_authority_that_the_treasury_signs_with() {
    let mut ctx = token_withdrawal(false, 100);
    ctx.bank_vault = other_authority();
    let before = ctx;
    assert_eq!(WithdrawToken::process(&ctx, 40), Err(BankAppError::AuthorizationFailed));
    assert_eq!(
        WithdrawToken::settle(&mut ctx, 40, TransferOutcome::Done),
        Err(BankAppError::AuthorizationFailed)
    );
    assert_eq!(ctx, before);
    // The reserve is looked at first.
    assert_eq!(WithdrawToken::process(&ctx, 101), Err(BankAppError::InsufficientFunds));
}

#[test]
fn native_withdraw_is_paid_and_signed_by_the_vault() {
    let vault = vault_authority();
    let mut ctx = Withdraw {
        bank_info: bank(false),
        bank_vault: vault,
        user_reserve: UserReserve { deposited_amount: 5 },
        user: id(2),
    };
    assert_eq!(
        withdraw(&ctx, 5),
        Ok(Transfer {
            kind: AssetKind::Native,
            from: vault.address(),
            to: id(2),
            authority: vault.address(),
            signer: Some(vault),
            amount: 5,
        })
    );
    assert_eq!(withdraw(&ctx, 5), Withdraw::process(&ctx, 5));
    assert_eq!(withdraw(&ctx, 6), Err(BankAppError::InsufficientFunds));
    assert_eq!(Withdraw::settle(&mut ctx, 6, TransferOutcome::Done), Err(BankAppError::InsufficientFunds));
    assert_eq!(ctx.user_reserve.deposited_amount, 5);
    assert_eq!(Withdraw::settle(&mut ctx, 5, TransferOutcome::Done), Ok(()));
    assert_eq!(ctx.user_reserve.deposited_amount, 0);
    ctx.bank_info.is_paused = true;
    assert_eq!(withdraw(&ctx, 0), Err(BankAppError::BankAppPaused));
    assert_eq!(Withdraw::settle(&mut ctx, 0, TransferOutcome::Done), Err(BankAppError::BankAppPaused));
    ctx.bank_info.is_paused = false;
    ctx.bank_vault = other_authority();
    assert_eq!(withdraw(&ctx, 0), Err(BankAppError::AuthorizationFailed));
}

#[test]
fn paused_treasury_refuses_every_movement_and_books_nothing() {
    let mut d = token_deposit(true, 100);
    assert_eq!(DepositToken::process(&d, 1), Err(BankAppError::BankAppPaused));
    assert_eq!(deposit_token(&d, 1), Err(BankAppError::BankAppPaused));
    assert_eq!(DepositToken::settle(&mut d, 1, TransferOutcome::Done), Err(BankAppError::BankAppPaused));
    assert_eq!(d, token_deposit(true, 100));

    let mut w = token_withdrawal(true, 100);
    assert_eq!(WithdrawToken::process(&w, 1), Err(BankAppError::BankAppPaused));
    // Paused comes before every other refusal.
    assert_eq!(WithdrawToken::process(&w, 101), Err(BankAppError::BankAppPaused));
    assert_eq!(WithdrawToken::settle(&mut w, 1, TransferOutcome::Done), Err(BankAppError::BankAppPaused));
    assert_eq!(w, token_withdrawal(true, 100));

    let mut i = token_investment(true, 100);
    assert_eq!(InvestToken::process(&i, 1, true), Err(BankAppError::BankAppPaused));
    assert_eq!(InvestToken::process(&i, 1, false), Err(BankAppError::BankAppPaused));
    i.authority = id(77);
    assert_eq!(invest_token(&i, 1, true), Err(BankAppError::BankAppPaused));
}

#[test]
fn only_the_authority_pauses_and_resumes() {
    let mut ctx = Pause { bank_info: bank(false), authority: id(OWNER) };
    assert_eq!(
        Pause::process(&mut ctx, true),
        Ok(PauseNotice { authority: id(OWNER), paused: true })
    );
    assert_eq!(ctx, Pause { bank_info: bank(true), authority: id(OWNER) });
    // A paused treasury can be resumed.
    assert_eq!(pause(&mut ctx, false), Ok(PauseNotice { authority: id(OWNER), paused: false }));
    assert_eq!(ctx, Pause { bank_info: bank(false), authority: id(OWNER) });
    // Setting the flag to what it is goes through too.
    assert_eq!(pause(&mut ctx, false), Ok(PauseNotice { authority: id(OWNER), paused: false }));
    assert_eq!(ctx.bank_info, bank(false));

    let mut stranger = Pause { bank_info: bank(false), authority: id(77) };
    assert_eq!(Pause::process(&mut stranger, true), Err(BankAppError::AuthorizationFailed));
    assert_eq!(stranger, Pause { bank_info: bank(false), authority: id(77) });
    let mut stranger = Pause { bank_info: bank(true), authority: id(77) };
    assert_eq!(pause(&mut stranger, false), Err(BankAppError::AuthorizationFailed));
    assert_eq!(stranger.bank_info, bank(true));
}

#[test]
fn invest_calls_the_staking_service_in_the_vaults_name() {
    let ctx = token_investment(false, 1_000);
    let call = InvestToken::process(&ctx, 400, true).unwrap();
    assert_eq!(
        call,
        StakeTokenCall {
            vault_authority: id(60),
            staking_vault: id(61),
            user_info: id(62),
            user: vault_authority(),
            payer: id(OWNER),
            user_ata: id(1),
            amount: 400,
            is_stake: true,
        }
    );
    assert_eq!(invest_token(&ctx, 400, true), Ok(call));
    assert_eq!(ctx, token_investment(false, 1_000));
}

#[test]
fn invest_checks_the_caller_the_vault_and_the_signer() {
    let mut ctx = token_investment(false, 1_000);
    assert_eq!(InvestToken::process(&ctx, 1_001, true), Err(BankAppError::InsufficientFunds));
    assert!(InvestToken::process(&ctx, 1_000, true).is_ok());
    // Taking funds back does not depend on what the vault holds.
    assert!(InvestToken::process(&ctx, 1_001, false).is_ok());
    assert!(InvestToken::process(&ctx, 0, true).is_ok());
    ctx.authority = id(77);
    assert_eq!(InvestToken::process(&ctx, 1, true), Err(BankAppError::AuthorizationFailed));
    assert_eq!(InvestToken::process(&ctx, 1_001, true), Err(BankAppError::AuthorizationFailed));
    ctx.authority = id(OWNER);
    ctx.bank_vault_authority = other_authority();
    assert_eq!(InvestToken::process(&ctx, 1, true), Err(BankAppError::AuthorizationFailed));
    assert_eq!(InvestToken::process(&ctx, 1_001, true), Err(BankAppError::InsufficientFunds));
}

#[test]
fn native_invest_calls_the_staking_service_in_the_vaults_name() {
    let mut ctx = Invest {
        authority: id(OWNER),
        bank_info: bank(false),
        bank_vault: vault_authority(),
        bank_vault_amount: 50,
        staking_vault: id(61),
        user_info: id(62),
    };
    assert_eq!(
        invest(&ctx, 50, true),
        Ok(StakeSolCall {
            staking_vault: id(61),
            user_info: id(62),
            user: vault_authority(),
            payer: id(OWNER),
            amount: 50,
            is_stake: true,
        })
    );
    assert_eq!(invest(&ctx, 50, true), Invest::process(&ctx, 50, true));
    assert_eq!(invest(&ctx, 51, true), Err(BankAppError::InsufficientFunds));
    assert!(invest(&ctx, 51, false).is_ok());
    ctx.bank_vault = other_authority();
    assert_eq!(invest(&ctx, 1, true), Err(BankAppError::AuthorizationFailed));
    ctx.bank_vault = vault_authority();
    ctx.authority = id(78);
    assert_eq!(invest(&ctx, 1, false), Err(BankAppError::AuthorizationFailed));
    ctx.bank_info.is_paused = true;
    assert_eq!(invest(&ctx, 1, false), Err(BankAppError::BankAppPaused));
}

#[test]
fn invested_funds_come_back_with_interest() {
    let ctx = token_investment(false, 1_000);
    let staking_authority = DerivedAuthority::find(&id(STAKING), &id(MINT)).unwrap();
    let mut bank_vault = 1_000u64;
    let mut staking_vault = 5_000u64;
    let mut record = UserTokenInfo::default();
    let year = 31_536_000;

    let mut now = 1_000;
    for (amount, is_stake) in [(1_000u64, true), (1_100, false)] {
        let call = InvestToken::process(&ctx, amount, is_stake).unwrap();
        let mut staking = StakeToken {
            vault_authority: staking_authority,
            staking_vault: call.staking_vault,
            user_info: record,
            user: call.user.address(),
            user_ata: call.user_ata,
        };
        let transfer = StakeToken::process(&mut staking, call.amount, call.is_stake, now)
            .unwrap()
            .unwrap();
        if transfer.from == call.user_ata {
            assert_eq!(transfer.authority, vault_authority().address());
            assert_eq!(transfer.to, id(61));
            bank_vault -= transfer.amount;
            staking_vault += transfer.amount;
        } else {
            assert_eq!(transfer.signer, Some(staking_authority));
            assert_eq!(transfer.from, id(61));
            assert_eq!(transfer.to, id(1));
            staking_vault -= transfer.amount;
            bank_vault += transfer.amount;
        }
        assert_eq!(
            StakeToken::settle(&mut staking, call.amount, call.is_stake, TransferOutcome::Done),
            Ok(())
        );
        record = staking.user_info;
        now += year;
    }
    assert_eq!(record, UserTokenInfo { amount: 0, last_update_time: 1_000 + year });
    assert_eq!(bank_vault, 1_100);
    assert_eq!(staking_vault, 4_900);
}

#[test]
fn reserve_is_deposits_less_withdrawals() {
    let vault = vault_authority();
    let calls = vec![
        ReserveCall::Deposit { amount: 100, outcome: TransferOutcome::Done },
        ReserveCall::Withdraw { amount: 30, vault, outcome: TransferOutcome::Done },
        // More than the reserve holds: refused.
        ReserveCall::Withdraw { amount: 78, vault, outcome: TransferOutcome::Done },
        // Refused by the ledger.
        ReserveCall::Deposit { amount: 1_000, outcome: TransferOutcome::InsufficientBalance },
        ReserveCall::Deposit { amount: 5, outcome: TransferOutcome::Done },
        ReserveCall::Withdraw { amount: 75, vault, outcome: TransferOutcome::AuthorizationFailed },
        // Not the authority that the treasury signs with.
        ReserveCall::Withdraw { amount: 1, vault: other_authority(), outcome: TransferOutcome::Done },
        ReserveCall::Withdraw { amount: 75, vault, outcome: TransferOutcome::Done },
        ReserveCall::Deposit { amount: u64::MAX, outcome: TransferOutcome::Done },
        ReserveCall::Deposit { amount: 0, outcome: TransferOutcome::Done },
    ];
    let mut reserve = UserReserve { deposited_amount: 7 };
    let done = reserve.apply_all(&bank(false), &calls);
    assert_eq!(done, 5);
    assert_eq!(reserve, UserReserve { deposited_amount: 7 + (100 + 5) - (30 + 75) });

    let mut one_by_one = UserReserve { deposited_amount: 7 };
    let mut results = Vec::new();
    for call in calls.iter() {
        results.push(one_by_one.apply(&bank(false), call));
    }
    assert_eq!(one_by_one, reserve);
    assert_eq!(
        results,
        vec![
            Ok(()),
            Ok(()),
            Err(BankAppError::InsufficientFunds),
            Err(BankAppError::TransferFailed),
            Ok(()),
            Err(BankAppError::AuthorizationFailed),
            Err(BankAppError::AuthorizationFailed),
            Ok(()),
            Err(BankAppError::Overflow),
            Ok(()),
        ]
    );

    let mut paused = UserReserve { deposited_amount: 7 };
    assert_eq!(paused.apply_all(&bank(true), &calls), 0);
    assert_eq!(paused, UserReserve { deposited_amount: 7 });
    assert_eq!(paused.apply_all(&bank(false), &Vec::new()), 0);
    assert_eq!(paused, UserReserve { deposited_amount: 7 });
}

#[test]
fn reserve_through_the_instructions_matches_the_history() {
    let mut deposit_ctx = token_deposit(false, 0);
    DepositToken::process(&deposit_ctx, 250).unwrap();
    DepositToken::settle(&mut deposit_ctx, 250, TransferOutcome::Done).unwrap();
    let mut withdraw_ctx = token_withdrawal(false, deposit_ctx.user_reserve.deposited_amount);
    WithdrawToken::process(&withdraw_ctx, 100).unwrap();
    WithdrawToken::settle(&mut withdraw_ctx, 100, TransferOutcome::Done).unwrap();
    assert!(WithdrawToken::process(&withdraw_ctx, 151).is_err());

    let mut reserve = UserReserve::default();
    reserve.apply_all(
        &bank(false),
        &vec![
            ReserveCall::Deposit { amount: 250, outcome: TransferOutcome::Done },
            ReserveCall::Withdraw { amount: 100, vault: vault_authority(), outcome: TransferOutcome::Done },
            ReserveCall::Withdraw { amount: 151, vault: vault_authority(), outcome: TransferOutcome::Done },
        ],
    );
    assert_eq!(withdraw_ctx.user_reserve, reserve);
    assert_eq!(reserve.deposited_amount, 150);
}

#[test]
fn checks_on_the_reserve_alone() {
    let reserve = UserReserve { deposited_amount: 10 };
    let vault = vault_authority();
    assert_eq!(reserve.check_deposit(&bank(false), 1), Ok(()));
    assert_eq!(reserve.check_deposit(&bank(true), 1), Err(BankAppError::BankAppPaused));
    assert_eq!(reserve.check_deposit(&bank(false), u64::MAX - 9), Err(BankAppError::Overflow));
    assert_eq!(reserve.check_withdrawal(&bank(false), &vault, 10), Ok(()));
    assert_eq!(reserve.check_withdrawal(&bank(false), &vault, 11), Err(BankAppError::InsufficientFunds));
    assert_eq!(reserve.check_withdrawal(&bank(true), &vault, 10), Err(BankAppError::BankAppPaused));
    assert_eq!(
        reserve.check_withdrawal(&bank(false), &other_authority(), 10),
        Err(BankAppError::AuthorizationFailed)
    );
}

#[test]
fn bank_errors_have_messages() {
    assert_eq!(BankAppError::BankAppPaused.message(), "The bank app is currently paused.");
    assert_eq!(BankAppError::InsufficientFunds.message(), "Insufficient funds for withdrawal.");
    assert_eq!(BankAppError::AuthorizationFailed.message(), "The caller is not authorized.");
    assert_eq!(BankAppError::TransferFailed.message(), "The ledger refused the transfer.");
    assert_eq!(BankAppError::Overflow.message(), "The deposited amount is too large.");
}
