use bank_staking::staking_app::accrual::clock_seconds;
use bank_staking::staking_app::accrual::compute_interest;
use bank_staking::staking_app::accrual::UserTokenInfo;
use bank_staking::staking_app::constant::SECOND_PER_YEAR;
use bank_staking::staking_app::constant::STAKING_APR;
use bank_staking::staking_app::error::StakingAppError;

#[test]
fn terms_of_the_service() {
    assert_eq!(STAKING_APR, 10);
    assert_eq!(SECOND_PER_YEAR, 365 * 24 * 60 * 60);
}

#[test]
fn one_year_at_ten_percent_pays_a_tenth() {
    assert_eq!(compute_interest(1000, 10, 31_536_000), Some(100));
    let record = UserTokenInfo { amount: 1000, last_update_time: 1 };
    let after = record.accrue(31_536_001).unwrap();
    assert_eq!(after, UserTokenInfo { amount: 1100, last_update_time: 31_536_001 });
}

#[test]
fn interest_is_rounded_down() {
    // 1 * 10 * elapsed / 3_153_600_000 reaches 1 at elapsed = 315_360_000.
    assert_eq!(compute_interest(1, 10, 315_359_999), Some(0));
    assert_eq!(compute_interest(1, 10, 315_360_000), Some(1));
    assert_eq!(compute_interest(1, 10, 630_719_999), Some(1));
    assert_eq!(compute_interest(12_345, 7, 1_000_000), Some(27));
}

#[test]
fn interest_of_nothing_or_no_time_is_nothing() {
    assert_eq!(compute_interest(0, 10, 1_000_000), Some(0));
    assert_eq!(compute_interest(1_000_000, 10, 0), Some(0));
    assert_eq!(compute_interest(1_000_000, 0, 1_000_000), Some(0));
}

#[test]
fn interest_does_not_shrink_with_time() {
    let mut last = 0;
    let mut elapsed = 0;
    while elapsed <= 40_000_000 {
        let now = compute_interest(777, 10, elapsed).unwrap();
        assert!(now >= last);
        last = now;
        elapsed += 250_000;
    }
    assert_eq!(last, 98);
}

#[test]
fn interest_on_the_largest_amount() {
    assert_eq!(compute_interest(u64::MAX, 10, 31_536_000), Some(1_844_674_407_370_955_161));
    assert_eq!(compute_interest(u64::MAX, 100, 31_536_000), Some(u64::MAX));
    assert_eq!(compute_interest(u64::MAX, 101, 31_536_000), None);
    assert_eq!(compute_interest(u64::MAX, u64::MAX, u64::MAX), None);
    // The product is below 2^128 here, the quotient above 2^64.
    assert_eq!(compute_interest(u64::MAX, 1, u64::MAX), None);
    assert_eq!(compute_interest(1 << 40, 1 << 40, 1 << 40), None);
}

#[test]
fn first_accrual_pays_nothing() {
    let record = UserTokenInfo { amount: 1000, last_update_time: 0 };
    let after = record.accrue(1_700_000_000).unwrap();
    assert_eq!(after, UserTokenInfo { amount: 1000, last_update_time: 1_700_000_000 });
}

#[test]
fn second_accrual_at_the_same_time_changes_nothing() {
    let record = UserTokenInfo { amount: 1000, last_update_time: 100 };
    let once = record.accrue(100 + 31_536_000).unwrap();
    let twice = once.accrue(100 + 31_536_000).unwrap();
    assert_eq!(once.amount, 1100);
    assert_eq!(twice, once);
}

#[test]
fn short_accruals_pay_less_than_one_long_one() {
    let start = UserTokenInfo { amount: 19, last_update_time: 1 };
    let half = 31_536_000 / 2;
    let long = start.accrue(1 + 2 * half).unwrap();
    let short = start.accrue(1 + half).unwrap().accrue(1 + 2 * half).unwrap();
    assert_eq!(long.amount, 20);
    assert_eq!(short.amount, 19);
    assert_eq!(short.last_update_time, long.last_update_time);
}

#[test]
fn clock_behind_last_accrual_is_refused() {
    let record = UserTokenInfo { amount: 1000, last_update_time: 50 };
    assert_eq!(record.accrue(49), Err(StakingAppError::InvalidTimestamp));
    assert_eq!(record.accrue(0), Err(StakingAppError::InvalidTimestamp));
    assert_eq!(record.accrue(50), Ok(record));
}

#[test]
fn accrual_beyond_sixty_four_bits_is_refused() {
    let record = UserTokenInfo { amount: u64::MAX, last_update_time: 1 };
    assert_eq!(record.accrue(1 + 31_536_000), Err(StakingAppError::Overflow));
    assert_eq!(record.accrue(u64::MAX), Err(StakingAppError::Overflow));
    // Less than a unit of interest still fits.
    assert_eq!(record.accrue(1), Ok(record));
    let nearly = UserTokenInfo { amount: u64::MAX - 58_494_241_735, last_update_time: 1 };
    assert_eq!(nearly.accrue(2).unwrap().amount, u64::MAX - 185);
    assert_eq!(nearly.accrue(3), Err(StakingAppError::Overflow));
}

#[test]
fn a_new_record_is_empty() {
    assert_eq!(UserTokenInfo::default(), UserTokenInfo { amount: 0, last_update_time: 0 });
}

#[test]
fn check_allows_what_the_record_can_bear() {
    let record = UserTokenInfo { amount: 500, last_update_time: 9 };
    assert_eq!(record.check(0, true), Ok(()));
    assert_eq!(record.check(0, false), Ok(()));
    assert_eq!(record.check(500, false), Ok(()));
    assert_eq!(record.check(501, false), Err(StakingAppError::InsufficientFunds));
    assert_eq!(record.check(u64::MAX - 500, true), Ok(()));
    assert_eq!(record.check(u64::MAX - 499, true), Err(StakingAppError::Overflow));
}

#[test]
fn staking_errors_have_messages() {
    assert_eq!(StakingAppError::InsufficientFunds.message(), "Insufficient funds for withdrawal.");
    assert_eq!(StakingAppError::InvalidTimestamp.message(), "The clock is behind the last accrual.");
    assert_eq!(StakingAppError::AuthorizationFailed.message(), "The transfer was not authorized.");
    assert_eq!(StakingAppError::TransferFailed.message(), "The ledger refused the transfer.");
    assert_eq!(StakingAppError::Overflow.message(), "The staked amount is too large.");
}

#[test]
fn clock_readings_before_the_epoch_are_refused() {
    assert_eq!(clock_seconds(0), Ok(0));
    assert_eq!(clock_seconds(1_700_000_000), Ok(1_700_000_000));
    assert_eq!(clock_seconds(i64::MAX), Ok(i64::MAX as u64));
    assert_eq!(clock_seconds(-1), Err(StakingAppError::InvalidTimestamp));
    assert_eq!(clock_seconds(i64::MIN), Err(StakingAppError::InvalidTimestamp));
}
