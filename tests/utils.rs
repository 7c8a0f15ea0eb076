use zeitgeist::errors::SocialRouletteError;
use zeitgeist::utils::{
    calculate_platform_fee, calculate_win_rate, calculate_winnings, validate_betting_duration,
    validate_future_timestamp,
};

#[test]
fn test_calculate_platform_fee() {
    // 2% of 1000 = 20
    assert_eq!(calculate_platform_fee(1000, 200).unwrap(), 20);

    // 5% of 10000 = 500
    assert_eq!(calculate_platform_fee(10000, 500).unwrap(), 500);

    // 0.01% of 1000000 = 100
    assert_eq!(calculate_platform_fee(1000000, 1).unwrap(), 100);
}

#[test]
fn test_calculate_winnings() {
    // User bet 100, total winning bets 1000, pool 10000, fee 200
    // Distributable = 10000 - 200 = 9800
    // Winnings = (100 / 1000) * 9800 = 980
    assert_eq!(calculate_winnings(100, 1000, 10000, 200).unwrap(), 980);

    // Equal split: 500 / 1000 * 9800 = 4900
    assert_eq!(calculate_winnings(500, 1000, 10000, 200).unwrap(), 4900);
}

#[test]
fn test_calculate_win_rate() {
    // 75 wins out of 100 = 7500 basis points (75%)
    assert_eq!(calculate_win_rate(75, 100), 7500);

    // 1 win out of 2 = 5000 basis points (50%)
    assert_eq!(calculate_win_rate(1, 2), 5000);

    // 0 wins = 0%
    assert_eq!(calculate_win_rate(0, 100), 0);

    // No predictions = 0%
    assert_eq!(calculate_win_rate(0, 0), 0);
}

#[test]
fn fee_and_share_of_a_ten_thousand_pool() {
    let fee = calculate_platform_fee(10000, 200).unwrap();
    assert_eq!(fee, 200);
    assert_eq!(10000 - fee, 9800);
    assert_eq!(calculate_winnings(1000, 5000, 10000, fee).unwrap(), 1960);
}

#[test]
fn fee_rounds_down() {
    assert_eq!(calculate_platform_fee(9999, 200).unwrap(), 199);
    assert_eq!(calculate_platform_fee(49, 200).unwrap(), 0);
    assert_eq!(calculate_platform_fee(0, 200).unwrap(), 0);
}

#[test]
fn fee_uses_a_wide_intermediate() {
    // u64::MAX * 10000 overflows u64 but not the 128-bit intermediate.
    assert_eq!(calculate_platform_fee(u64::MAX, 10000).unwrap(), u64::MAX);
    assert_eq!(
        calculate_platform_fee(u64::MAX, 10001),
        Err(SocialRouletteError::ArithmeticOverflow)
    );
}

#[test]
fn winnings_without_winning_stakes_are_zero() {
    assert_eq!(calculate_winnings(1000, 0, 10000, 200).unwrap(), 0);
}

#[test]
fn winnings_fail_when_fee_exceeds_pool() {
    assert_eq!(
        calculate_winnings(1000, 5000, 100, 200),
        Err(SocialRouletteError::ArithmeticUnderflow)
    );
}

#[test]
fn winnings_fail_when_share_does_not_fit() {
    assert_eq!(
        calculate_winnings(u64::MAX, 1, u64::MAX, 0),
        Err(SocialRouletteError::ArithmeticOverflow)
    );
    assert_eq!(calculate_winnings(u64::MAX, u64::MAX, u64::MAX, 0).unwrap(), u64::MAX);
}

#[test]
fn winnings_round_down() {
    // 1 * 9800 / 3 = 3266.67
    assert_eq!(calculate_winnings(1, 3, 10000, 200).unwrap(), 3266);
}

#[test]
fn win_rate_saturates() {
    assert_eq!(calculate_win_rate(u64::MAX, 1), u64::MAX);
}

#[test]
fn future_timestamp_must_be_strictly_later() {
    assert_eq!(validate_future_timestamp(101, 100), Ok(()));
    assert_eq!(
        validate_future_timestamp(100, 100),
        Err(SocialRouletteError::InvalidBettingDuration)
    );
}

#[test]
fn duration_bounds_are_inclusive() {
    assert_eq!(validate_betting_duration(0, 60, 60, 120), Ok(()));
    assert_eq!(validate_betting_duration(0, 120, 60, 120), Ok(()));
    assert_eq!(
        validate_betting_duration(0, 59, 60, 120),
        Err(SocialRouletteError::InvalidBettingDuration)
    );
    assert_eq!(
        validate_betting_duration(0, 121, 60, 120),
        Err(SocialRouletteError::InvalidBettingDuration)
    );
    assert_eq!(
        validate_betting_duration(i64::MIN, i64::MAX, 60, 120),
        Err(SocialRouletteError::ArithmeticUnderflow)
    );
}
