use zeitgeist::errors::SocialRouletteError;
use zeitgeist::oracle::{
    resolve_outcome, verify_onchain_data, verify_pyth_price, verify_switchboard_vrf,
};
use zeitgeist::address::Address;
use zeitgeist::state::round::{Round, RoundStatus, VerificationMethod, UNSET_OUTCOME};

fn round_with(method: VerificationMethod, target_value: i64, num_outcomes: u8) -> Round {
    Round {
        round_id: 1,
        creator: Address::new([1; 32]),
        start_time: 1000,
        end_time: 2000,
        total_pool: 0,
        total_predictions: 0,
        platform_fee_collected: 0,
        num_outcomes,
        winning_outcome: UNSET_OUTCOME,
        tournament: None,
        winning_pool: 0,
        status: RoundStatus::Closed,
        bump: 0,
        betting_close_time: 1010,
        question: String::from("price above target?"),
        verification_method: method,
        target_value,
        data_source: Address::new([2; 32]),
        oracle: Address::new([3; 32]),
    }
}

fn price_record(price: i64, exponent: i32, publish_time: i64) -> Vec<u8> {
    let mut data = vec![0xAAu8; 32];
    data[8..16].copy_from_slice(&price.to_le_bytes());
    data[16..20].copy_from_slice(&7u32.to_le_bytes());
    data[20..24].copy_from_slice(&exponent.to_le_bytes());
    data[24..32].copy_from_slice(&publish_time.to_le_bytes());
    data
}

fn randomness_record(seed: u64) -> Vec<u8> {
    let mut data = vec![0x55u8; 40];
    data[8..16].copy_from_slice(&seed.to_le_bytes());
    data
}

#[test]
fn price_at_target_wins_outcome_zero() {
    // 150.00000000 with exponent -8 is 15000 cents.
    let data = price_record(15_000_000_000, -8, 5000);
    let at = round_with(VerificationMethod::PythPrice, 15000, 2);
    let above = round_with(VerificationMethod::PythPrice, 15001, 2);
    assert_eq!(verify_pyth_price(&at, &data, 5000), Ok(0));
    assert_eq!(verify_pyth_price(&above, &data, 5000), Ok(1));
}

#[test]
fn negative_exponent_truncates_toward_zero() {
    // -12.345 is -1234.5 cents, truncated to -1234.
    let data = price_record(-12345, -3, 5000);
    let r1 = round_with(VerificationMethod::PythPrice, -1234, 2);
    let r2 = round_with(VerificationMethod::PythPrice, -1233, 2);
    assert_eq!(verify_pyth_price(&r1, &data, 5000), Ok(0));
    assert_eq!(verify_pyth_price(&r2, &data, 5000), Ok(1));
}

#[test]
fn positive_exponent_scales_up() {
    // 3 * 10^2 units is 30000 cents.
    let data = price_record(3, 2, 5000);
    let r1 = round_with(VerificationMethod::PythPrice, 30000, 2);
    let r2 = round_with(VerificationMethod::PythPrice, 30001, 2);
    assert_eq!(verify_pyth_price(&r1, &data, 5000), Ok(0));
    assert_eq!(verify_pyth_price(&r2, &data, 5000), Ok(1));
}

#[test]
fn price_older_than_a_minute_is_stale() {
    let data = price_record(100, 0, 5000);
    let r = round_with(VerificationMethod::PythPrice, 0, 2);
    assert_eq!(verify_pyth_price(&r, &data, 5060), Ok(0));
    assert_eq!(verify_pyth_price(&r, &data, 5061), Err(SocialRouletteError::OraclePriceStale));
}

#[test]
fn short_price_record_is_invalid() {
    let mut data = price_record(100, 0, 5000);
    data.truncate(31);
    let r = round_with(VerificationMethod::PythPrice, 0, 2);
    assert_eq!(verify_pyth_price(&r, &data, 5000), Err(SocialRouletteError::InvalidOracle));
}

#[test]
fn price_normalisation_overflow_fails_closed() {
    let r = round_with(VerificationMethod::PythPrice, 0, 2);
    let huge = price_record(i64::MAX, -2, 5000);
    assert_eq!(verify_pyth_price(&r, &huge, 5000), Err(SocialRouletteError::ArithmeticOverflow));
    let big_exponent = price_record(1, -19, 5000);
    assert_eq!(
        verify_pyth_price(&r, &big_exponent, 5000),
        Err(SocialRouletteError::ArithmeticOverflow)
    );
    let scaled_up = price_record(1_000_000_000, 10, 5000);
    assert_eq!(verify_pyth_price(&r, &scaled_up, 5000), Err(SocialRouletteError::ArithmeticOverflow));
    let ancient = price_record(1, 0, i64::MIN);
    assert_eq!(verify_pyth_price(&r, &ancient, 5000), Err(SocialRouletteError::ArithmeticOverflow));
}

#[test]
fn randomness_is_reduced_modulo_outcomes() {
    assert_eq!(verify_switchboard_vrf(&randomness_record(17), 5), Ok(2));
    assert_eq!(verify_switchboard_vrf(&randomness_record(u64::MAX), 10), Ok(5));
    assert_eq!(verify_switchboard_vrf(&randomness_record(0), 3), Ok(0));
}

#[test]
fn short_randomness_record_is_invalid() {
    let mut data = randomness_record(17);
    data.truncate(39);
    assert_eq!(verify_switchboard_vrf(&data, 5), Err(SocialRouletteError::InvalidOracle));
}

#[test]
fn counter_threshold_picks_outcome() {
    assert_eq!(verify_onchain_data(100, 100, 2), Ok(0));
    assert_eq!(verify_onchain_data(99, 100, 2), Ok(1));
    assert_eq!(verify_onchain_data(0, -5, 2), Ok(0));
    assert_eq!(verify_onchain_data(u64::MAX, i64::MAX, 2), Ok(0));
}

#[test]
fn counter_outcome_must_exist() {
    assert_eq!(verify_onchain_data(99, 100, 1), Err(SocialRouletteError::InvalidOutcome));
}

#[test]
fn strategy_follows_the_verification_method() {
    let slot_round = round_with(VerificationMethod::OnChainData, 50, 2);
    assert_eq!(resolve_outcome(&slot_round, &[], 49, 0), Ok(1));
    let vrf_round = round_with(VerificationMethod::SwitchboardVRF, 0, 4);
    assert_eq!(resolve_outcome(&vrf_round, &randomness_record(7), 0, 0), Ok(3));
    let price_round = round_with(VerificationMethod::PythPrice, 100, 2);
    assert_eq!(resolve_outcome(&price_round, &price_record(2, 0, 10), 0, 10), Ok(0));
    let attested = round_with(VerificationMethod::TwitterAPI, 0, 2);
    assert_eq!(
        resolve_outcome(&attested, &[], 0, 0),
        Err(SocialRouletteError::RequiresOffChainOracle)
    );
}
