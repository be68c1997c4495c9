use token_22_tc::error::MintError;
use token_22_tc::fee::{transfer_fee_due, FeeTier, TransferFeeSchedule};

fn tier(epoch: u64, maximum_fee: u64, basis_points: u16) -> FeeTier {
    FeeTier { epoch, maximum_fee, basis_points }
}

/// The fee of `amount` under a schedule whose two settings are `t`.
fn calculate_tier_fee(t: &FeeTier, amount: u64) -> Option<u64> {
    TransferFeeSchedule { older: *t, newer: *t }.calculate_epoch_fee(0, amount)
}

#[test]
fn fee_rounds_up() {
    // 1% of 150 is 1.5, charged as 2
    assert_eq!(calculate_tier_fee(&tier(0, 1_000, 100), 150), Some(2));
    // 2.5% of 1_000 is exactly 25
    assert_eq!(calculate_tier_fee(&tier(0, 1_000, 250), 1_000), Some(25));
}

#[test]
fn fee_is_capped_at_maximum() {
    assert_eq!(calculate_tier_fee(&tier(0, 5_000, 100), 1_000_000), Some(5_000));
}

#[test]
fn fee_is_zero_for_zero_rate_or_amount() {
    assert_eq!(calculate_tier_fee(&tier(0, 5_000, 0), 1_000_000), Some(0));
    assert_eq!(calculate_tier_fee(&tier(0, 5_000, 100), 0), Some(0));
}

#[test]
fn fee_overflow_gives_none() {
    // a rate above 100% on the largest amount does not fit in a u64
    assert_eq!(calculate_tier_fee(&tier(0, u64::MAX, 20_000), u64::MAX), None);
}

#[test]
fn full_rate_fee_equals_amount() {
    assert_eq!(calculate_tier_fee(&tier(0, u64::MAX, 10_000), 12_345), Some(12_345));
}

#[test]
fn epoch_picks_newer_tier_from_its_epoch() {
    let schedule = TransferFeeSchedule { older: tier(0, 1_000, 100), newer: tier(10, 1_000, 200) };
    assert_eq!(schedule.epoch_tier(9), tier(0, 1_000, 100));
    assert_eq!(schedule.epoch_tier(10), tier(10, 1_000, 200));
    assert_eq!(schedule.calculate_epoch_fee(9, 10_000), Some(100));
    assert_eq!(schedule.calculate_epoch_fee(11, 10_000), Some(200));
}

#[test]
fn fee_due_without_configuration_is_zero() {
    assert_eq!(transfer_fee_due(Err(7), 3, 1_000), Ok(0));
}

#[test]
fn fee_due_overflow_is_maths_overflow() {
    let schedule = TransferFeeSchedule { older: tier(0, u64::MAX, 20_000), newer: tier(5, u64::MAX, 20_000) };
    assert_eq!(transfer_fee_due(Ok(schedule), 0, u64::MAX), Err(MintError::MathsOverflow));
}

#[test]
fn larger_transfer_pays_no_less() {
    let t = tier(0, 10_000, 37);
    let mut previous = 0;
    for amount in [0u64, 1, 2, 99, 100, 101, 270, 271, 10_000, 1_000_000, 100_000_000] {
        let fee = calculate_tier_fee(&t, amount).unwrap();
        assert!(fee >= previous);
        assert!(fee <= t.maximum_fee);
        assert!(fee <= amount);
        previous = fee;
    }
}
