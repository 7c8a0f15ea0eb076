use zeitgeist::address::{vault_address, Address};
use zeitgeist::errors::SocialRouletteError;
use zeitgeist::instructions::{
    claim_winnings, close_betting, create_round, emergency_cancel, initialize, place_prediction,
    refund_prediction, settle_round,
};
use zeitgeist::state::global_state::GlobalState;
use zeitgeist::state::prediction::Prediction;
use zeitgeist::state::round::{Round, RoundStatus, VerificationMethod, UNSET_OUTCOME};
use zeitgeist::state::user_stats::UserStats;
use zeitgeist::state::vault::Vault;

const NOW: i64 = 1_700_000_000;
const START: i64 = NOW + 100;
const END: i64 = START + 3600;
const SOL: u64 = 1_000_000_000;

fn addr(b: u8) -> Address {
    Address::new([b; 32])
}

fn program_id() -> Address {
    addr(7)
}

fn admin() -> Address {
    addr(9)
}

fn oracle_authority() -> Address {
    addr(6)
}

fn global() -> GlobalState {
    initialize::handler(admin(), addr(8), 255)
}

fn empty_stats() -> UserStats {
    UserStats {
        user: addr(0),
        total_predictions: 0,
        total_wins: 0,
        total_wagered: 0,
        total_won: 0,
        net_profit: 0,
        bump: 0,
    }
}

fn try_round(
    global_state: &mut GlobalState,
    round_id: u64,
    num_outcomes: u8,
    window: i64,
) -> Result<Round, SocialRouletteError> {
    let vault_key = vault_address(&program_id(), round_id).unwrap();
    create_round::handler(
        global_state,
        &program_id(),
        &vault_key,
        addr(1),
        round_id,
        START,
        END,
        num_outcomes,
        String::from("Will the counter pass 50?"),
        VerificationMethod::OnChainData,
        50,
        addr(5),
        oracle_authority(),
        window,
        254,
        NOW,
    )
}

fn open_round(global_state: &mut GlobalState, round_id: u64) -> Round {
    try_round(global_state, round_id, 2, 60).unwrap()
}

fn stake(
    global_state: &mut GlobalState,
    round: &mut Round,
    stats: &mut UserStats,
    vault: &mut Vault,
    user: u8,
    outcome: u8,
    amount: u64,
) -> Prediction {
    place_prediction::handler(
        global_state, round, stats, vault, addr(user), outcome, amount, 1, 2, START + 5,
    )
    .unwrap()
}

fn settle(
    global_state: &GlobalState,
    round: &mut Round,
    vault: &mut Vault,
    slot: u64,
    winning_pool: u64,
) -> Result<u64, SocialRouletteError> {
    settle_round::handler(
        global_state,
        round,
        vault,
        &admin(),
        &oracle_authority(),
        &[],
        slot,
        winning_pool,
        END,
    )
}

#[test]
fn vault_address_matches_the_runtime_derivation() {
    let id = anchor_lang::prelude::Pubkey::new_from_array([7; 32]);
    let (expected, _bump) = anchor_lang::prelude::Pubkey::find_program_address(
        &[b"vault", &42u64.to_le_bytes()],
        &id,
    );
    let derived = vault_address(&program_id(), 42).unwrap();
    assert_eq!(derived.bytes, expected.to_bytes());
    assert_ne!(derived, program_id());
    assert_ne!(derived, vault_address(&program_id(), 43).unwrap());
}

#[test]
fn new_round_starts_active_and_empty() {
    let mut g = global();
    let round = open_round(&mut g, 1);
    assert_eq!(round.status, RoundStatus::Active);
    assert_eq!(round.total_pool, 0);
    assert_eq!(round.total_predictions, 0);
    assert_eq!(round.platform_fee_collected, 0);
    assert_eq!(round.winning_outcome, UNSET_OUTCOME);
    assert_eq!(round.betting_close_time, START + 60);
    assert_eq!(g.total_rounds, 1);
}

#[test]
fn outcome_count_bounds() {
    let mut g = global();
    assert_eq!(
        try_round(&mut g, 1, 1, 60).unwrap_err(),
        SocialRouletteError::InvalidOutcomeCount
    );
    assert_eq!(
        try_round(&mut g, 1, 11, 60).unwrap_err(),
        SocialRouletteError::InvalidOutcomeCount
    );
    assert_eq!(g.total_rounds, 0);
    assert_eq!(try_round(&mut g, 1, 2, 60).unwrap().num_outcomes, 2);
    assert_eq!(try_round(&mut g, 2, 10, 60).unwrap().num_outcomes, 10);
}

#[test]
fn betting_window_bounds() {
    let mut g = global();
    assert_eq!(
        try_round(&mut g, 1, 2, 9).unwrap_err(),
        SocialRouletteError::InvalidBettingWindowDuration
    );
    assert_eq!(try_round(&mut g, 1, 2, 10).unwrap().betting_close_time, START + 10);
    assert_eq!(try_round(&mut g, 2, 2, 300).unwrap().betting_close_time, START + 300);
    assert_eq!(
        try_round(&mut g, 3, 2, 301).unwrap_err(),
        SocialRouletteError::InvalidBettingWindowDuration
    );
}

#[test]
fn round_must_start_in_the_future_and_last_long_enough() {
    let mut g = global();
    let vault_key = vault_address(&program_id(), 1).unwrap();
    let make = |g: &mut GlobalState, start: i64, end: i64| {
        create_round::handler(
            g,
            &program_id(),
            &vault_key,
            addr(1),
            1,
            start,
            end,
            2,
            String::new(),
            VerificationMethod::OnChainData,
            0,
            addr(5),
            addr(6),
            60,
            0,
            NOW,
        )
    };
    assert_eq!(make(&mut g, NOW, NOW + 3600).unwrap_err(), SocialRouletteError::InvalidBettingDuration);
    assert_eq!(make(&mut g, START, START + 59).unwrap_err(), SocialRouletteError::InvalidBettingDuration);
    assert_eq!(
        make(&mut g, START, START + 86400 * 7 + 1).unwrap_err(),
        SocialRouletteError::InvalidBettingDuration
    );
    assert!(make(&mut g, START, START + 60).is_ok());
}

#[test]
fn round_needs_its_own_vault() {
    let mut g = global();
    let wrong_vault = vault_address(&program_id(), 2).unwrap();
    let r = create_round::handler(
        &mut g,
        &program_id(),
        &wrong_vault,
        addr(1),
        1,
        START,
        END,
        2,
        String::new(),
        VerificationMethod::OnChainData,
        0,
        addr(5),
        addr(6),
        60,
        0,
        NOW,
    );
    assert_eq!(r.unwrap_err(), SocialRouletteError::Unauthorized);
    assert_eq!(g.total_rounds, 0);
}

#[test]
fn stake_updates_pool_vault_stats_and_volume() {
    let mut g = global();
    let mut round = open_round(&mut g, 1);
    let mut stats = empty_stats();
    let mut vault = Vault::new(1);
    let p = stake(&mut g, &mut round, &mut stats, &mut vault, 20, 1, 2 * SOL);
    assert_eq!(p.amount, 2 * SOL);
    assert_eq!(p.outcome, 1);
    assert_eq!(p.round_id, 1);
    assert!(!p.claimed);
    assert_eq!(p.timestamp, START + 5);
    assert_eq!(round.total_pool, 2 * SOL);
    assert_eq!(round.total_predictions, 1);
    assert_eq!(vault.balance, 2 * SOL);
    assert_eq!(stats.user, addr(20));
    assert_eq!(stats.total_predictions, 1);
    assert_eq!(stats.total_wagered, 2 * SOL);
    assert_eq!(stats.net_profit, -2 * SOL as i64);
    assert_eq!(g.total_volume, 2 * SOL);
}

#[test]
fn stake_order_does_not_matter() {
    let mut g1 = global();
    let mut r1 = open_round(&mut g1, 1);
    let mut v1 = Vault::new(1);
    stake(&mut g1, &mut r1, &mut empty_stats(), &mut v1, 20, 0, 3 * SOL);
    stake(&mut g1, &mut r1, &mut empty_stats(), &mut v1, 21, 1, 5 * SOL);

    let mut g2 = global();
    let mut r2 = open_round(&mut g2, 1);
    let mut v2 = Vault::new(1);
    stake(&mut g2, &mut r2, &mut empty_stats(), &mut v2, 21, 1, 5 * SOL);
    stake(&mut g2, &mut r2, &mut empty_stats(), &mut v2, 20, 0, 3 * SOL);

    assert_eq!(r1.total_pool, r2.total_pool);
    assert_eq!(r1.total_predictions, r2.total_predictions);
    assert_eq!(r1.total_pool, 8 * SOL);
    assert_eq!(r1.total_predictions, 2);
}

#[test]
fn stake_is_refused_with_the_first_failing_check() {
    let mut g = global();
    let mut round = open_round(&mut g, 1);
    let mut stats = empty_stats();
    let mut vault = Vault::new(1);
    let mut attempt = |g: &mut GlobalState, round: &mut Round, outcome: u8, amount: u64, t: i64| {
        place_prediction::handler(g, round, &mut stats, &mut vault, addr(20), outcome, amount, 1, 2, t)
            .unwrap_err()
    };
    assert_eq!(attempt(&mut g, &mut round, 0, SOL, START - 1), SocialRouletteError::BettingNotStarted);
    assert_eq!(attempt(&mut g, &mut round, 0, SOL, START + 60), SocialRouletteError::BettingEnded);
    assert_eq!(attempt(&mut g, &mut round, 0, 999_999, START), SocialRouletteError::InvalidPredictionAmount);
    assert_eq!(
        attempt(&mut g, &mut round, 0, 100 * SOL + 1, START),
        SocialRouletteError::InvalidPredictionAmount
    );
    assert_eq!(attempt(&mut g, &mut round, 2, SOL, START), SocialRouletteError::InvalidOutcome);
    let mut full = round.clone();
    full.total_predictions = 10000;
    assert_eq!(attempt(&mut g, &mut full, 0, SOL, START), SocialRouletteError::MaxPredictionsReached);
    g.paused = true;
    assert_eq!(attempt(&mut g, &mut round, 0, SOL, START), SocialRouletteError::ProgramPaused);
    assert_eq!(round.total_pool, 0);
    assert_eq!(g.total_volume, 0);
}

#[test]
fn failed_stake_leaves_everything_unchanged() {
    let mut g = global();
    g.total_volume = u64::MAX;
    let mut round = open_round(&mut g, 1);
    let mut stats = empty_stats();
    let mut vault = Vault::new(1);
    let r = place_prediction::handler(
        &mut g, &mut round, &mut stats, &mut vault, addr(20), 0, SOL, 1, 2, START,
    );
    assert_eq!(r.unwrap_err(), SocialRouletteError::ArithmeticOverflow);
    assert_eq!(round.total_pool, 0);
    assert_eq!(round.total_predictions, 0);
    assert_eq!(vault.balance, 0);
    assert_eq!(stats.total_predictions, 0);
}

#[test]
fn close_only_after_the_window() {
    let mut g = global();
    let mut round = open_round(&mut g, 1);
    assert_eq!(
        close_betting::handler(&mut round, START + 59),
        Err(SocialRouletteError::BettingStillActive)
    );
    assert_eq!(close_betting::handler(&mut round, START + 60), Ok(()));
    assert_eq!(round.status, RoundStatus::Closed);
    assert_eq!(
        close_betting::handler(&mut round, START + 61),
        Err(SocialRouletteError::BettingEnded)
    );
}

#[test]
fn full_round_pays_winners_within_the_pool() {
    let mut g = global();
    let mut round = open_round(&mut g, 1);
    let mut vault = Vault::new(1);
    let mut s1 = empty_stats();
    let mut s2 = empty_stats();
    let mut s3 = empty_stats();
    let mut a = stake(&mut g, &mut round, &mut s1, &mut vault, 20, 0, 3 * SOL);
    let mut b = stake(&mut g, &mut round, &mut s2, &mut vault, 21, 0, 1 * SOL);
    let mut c = stake(&mut g, &mut round, &mut s3, &mut vault, 22, 1, 6 * SOL);
    close_betting::handler(&mut round, START + 60).unwrap();

    // Counter 60 >= target 50: outcome 0 wins, backed by 4 SOL.
    let fee = settle(&g, &mut round, &mut vault, 60, 4 * SOL).unwrap();
    assert_eq!(fee, 200_000_000);
    assert_eq!(round.status, RoundStatus::Settled);
    assert_eq!(round.winning_outcome, 0);
    assert_eq!(round.platform_fee_collected, round.total_pool * 200 / 10000);
    assert_eq!(vault.balance, 10 * SOL - fee);

    let wa = claim_winnings::handler(&round, &mut a, &mut s1, &mut vault).unwrap();
    let wb = claim_winnings::handler(&round, &mut b, &mut s2, &mut vault).unwrap();
    assert_eq!(wa, 7_350_000_000);
    assert_eq!(wb, 2_450_000_000);
    assert!(wa + wb <= round.total_pool - round.platform_fee_collected);
    assert_eq!(vault.balance, 0);
    assert_eq!(s1.total_wins, 1);
    assert_eq!(s1.total_won, wa);
    assert_eq!(s1.net_profit, (wa - 3 * SOL) as i64);
    assert_eq!(
        claim_winnings::handler(&round, &mut c, &mut s3, &mut vault),
        Err(SocialRouletteError::NoWinnings)
    );
}

#[test]
fn second_claim_is_refused() {
    let mut g = global();
    let mut round = open_round(&mut g, 1);
    let mut vault = Vault::new(1);
    let mut stats = empty_stats();
    let mut p = stake(&mut g, &mut round, &mut stats, &mut vault, 20, 0, 2 * SOL);
    close_betting::handler(&mut round, START + 60).unwrap();
    settle(&g, &mut round, &mut vault, 60, 2 * SOL).unwrap();
    let first = claim_winnings::handler(&round, &mut p, &mut stats, &mut vault).unwrap();
    assert_eq!(first, 1_960_000_000);
    assert!(p.claimed);
    let balance = vault.balance;
    assert_eq!(
        claim_winnings::handler(&round, &mut p, &mut stats, &mut vault),
        Err(SocialRouletteError::AlreadyClaimed)
    );
    assert_eq!(vault.balance, balance);
    assert_eq!(stats.total_wins, 1);
}

#[test]
fn empty_winning_pool_pays_nobody() {
    let mut g = global();
    let mut round = open_round(&mut g, 1);
    let mut vault = Vault::new(1);
    let mut stats = empty_stats();
    let mut p = stake(&mut g, &mut round, &mut stats, &mut vault, 20, 0, 2 * SOL);
    let mut q = stake(&mut g, &mut round, &mut empty_stats(), &mut vault, 21, 1, 2 * SOL);
    close_betting::handler(&mut round, START + 60).unwrap();
    settle(&g, &mut round, &mut vault, 60, 0).unwrap();
    assert_eq!(
        claim_winnings::handler(&round, &mut p, &mut stats, &mut vault),
        Err(SocialRouletteError::NoWinnings)
    );
    assert_eq!(
        claim_winnings::handler(&round, &mut q, &mut stats, &mut vault),
        Err(SocialRouletteError::NoWinnings)
    );
    assert!(!p.claimed);
}

#[test]
fn claim_needs_a_settled_round() {
    let mut g = global();
    let mut round = open_round(&mut g, 1);
    let mut vault = Vault::new(1);
    let mut stats = empty_stats();
    let mut p = stake(&mut g, &mut round, &mut stats, &mut vault, 20, 0, 2 * SOL);
    assert_eq!(
        claim_winnings::handler(&round, &mut p, &mut stats, &mut vault),
        Err(SocialRouletteError::RoundNotSettled)
    );
}

#[test]
fn claim_needs_a_funded_vault() {
    let mut g = global();
    let mut round = open_round(&mut g, 1);
    let mut vault = Vault::new(1);
    let mut stats = empty_stats();
    let mut p = stake(&mut g, &mut round, &mut stats, &mut vault, 20, 0, 2 * SOL);
    close_betting::handler(&mut round, START + 60).unwrap();
    settle(&g, &mut round, &mut vault, 60, 2 * SOL).unwrap();
    vault.balance = 1;
    assert_eq!(
        claim_winnings::handler(&round, &mut p, &mut stats, &mut vault),
        Err(SocialRouletteError::InsufficientVaultBalance)
    );
    assert!(!p.claimed);
    assert_eq!(vault.balance, 1);
}

#[test]
fn settle_checks_signers_status_and_time() {
    let mut g = global();
    let mut round = open_round(&mut g, 1);
    let mut vault = Vault::new(1);
    assert_eq!(settle(&g, &mut round, &mut vault, 60, 0), Err(SocialRouletteError::BettingStillActive));
    close_betting::handler(&mut round, START + 60).unwrap();
    let early = settle_round::handler(
        &g, &mut round, &mut vault, &admin(), &oracle_authority(), &[], 60, 0, END - 1,
    );
    assert_eq!(early, Err(SocialRouletteError::BettingStillActive));
    let stranger = settle_round::handler(
        &g, &mut round, &mut vault, &addr(99), &oracle_authority(), &[], 60, 0, END,
    );
    assert_eq!(stranger, Err(SocialRouletteError::Unauthorized));
    let wrong_oracle = settle_round::handler(
        &g, &mut round, &mut vault, &admin(), &addr(99), &[], 60, 0, END,
    );
    assert_eq!(wrong_oracle, Err(SocialRouletteError::Unauthorized));
    assert_eq!(settle(&g, &mut round, &mut vault, 60, 1), Err(SocialRouletteError::InvalidWinningPool));
    assert_eq!(round.status, RoundStatus::Closed);
    assert_eq!(settle(&g, &mut round, &mut vault, 60, 0), Ok(0));
    assert_eq!(settle(&g, &mut round, &mut vault, 60, 0), Err(SocialRouletteError::RoundAlreadySettled));
}

#[test]
fn settle_needs_the_fee_in_the_vault() {
    let mut g = global();
    let mut round = open_round(&mut g, 1);
    let mut vault = Vault::new(1);
    stake(&mut g, &mut round, &mut empty_stats(), &mut vault, 20, 0, 2 * SOL);
    close_betting::handler(&mut round, START + 60).unwrap();
    vault.balance = 1000;
    assert_eq!(
        settle(&g, &mut round, &mut vault, 60, 2 * SOL),
        Err(SocialRouletteError::InsufficientVaultBalance)
    );
    assert_eq!(round.status, RoundStatus::Closed);
    assert_eq!(round.platform_fee_collected, 0);
}

#[test]
fn attested_rounds_are_not_settled_automatically() {
    let mut g = global();
    let mut round = open_round(&mut g, 1);
    round.verification_method = VerificationMethod::TwitterAPI;
    let mut vault = Vault::new(1);
    close_betting::handler(&mut round, START + 60).unwrap();
    assert_eq!(settle(&g, &mut round, &mut vault, 60, 0), Err(SocialRouletteError::RequiresOffChainOracle));
}

#[test]
fn cancelled_round_refunds_every_stake() {
    let mut g = global();
    let mut round = open_round(&mut g, 1);
    let mut p = Prediction {
        round_id: 1,
        user: addr(20),
        amount: 500,
        outcome: 0,
        timestamp: START,
        claimed: false,
        bump: 0,
    };
    let mut q = Prediction { user: addr(21), amount: 700, outcome: 1, ..p };
    let mut vault = Vault { round_id: 1, balance: 1200 };
    assert_eq!(
        refund_prediction::handler(&round, &mut p, &mut vault),
        Err(SocialRouletteError::RoundNotCancelled)
    );
    emergency_cancel::handler(&g, &admin(), &mut round).unwrap();
    assert_eq!(round.status, RoundStatus::Cancelled);
    assert_eq!(refund_prediction::handler(&round, &mut p, &mut vault), Ok(500));
    assert_eq!(refund_prediction::handler(&round, &mut q, &mut vault), Ok(700));
    assert_eq!(vault.balance, 0);
    assert_eq!(
        refund_prediction::handler(&round, &mut p, &mut vault),
        Err(SocialRouletteError::AlreadyClaimed)
    );
}

#[test]
fn refund_needs_a_stake_and_a_funded_vault() {
    let mut g = global();
    let mut round = open_round(&mut g, 1);
    emergency_cancel::handler(&g, &admin(), &mut round).unwrap();
    let mut zero = Prediction {
        round_id: 1,
        user: addr(20),
        amount: 0,
        outcome: 0,
        timestamp: START,
        claimed: false,
        bump: 0,
    };
    let mut vault = Vault { round_id: 1, balance: 100 };
    assert_eq!(refund_prediction::handler(&round, &mut zero, &mut vault), Err(SocialRouletteError::NoRefund));
    let mut big = Prediction { amount: 101, ..zero };
    assert_eq!(
        refund_prediction::handler(&round, &mut big, &mut vault),
        Err(SocialRouletteError::InsufficientVaultBalance)
    );
    assert!(!big.claimed);
    assert_eq!(vault.balance, 100);
}

#[test]
fn cancel_is_admin_only_and_never_after_settlement() {
    let mut g = global();
    let mut round = open_round(&mut g, 1);
    assert_eq!(
        emergency_cancel::handler(&g, &addr(99), &mut round),
        Err(SocialRouletteError::Unauthorized)
    );
    close_betting::handler(&mut round, START + 60).unwrap();
    let mut settled = round.clone();
    let mut vault = Vault::new(1);
    settle(&g, &mut settled, &mut vault, 60, 0).unwrap();
    assert_eq!(
        emergency_cancel::handler(&g, &admin(), &mut settled),
        Err(SocialRouletteError::RoundAlreadySettled)
    );
    assert_eq!(emergency_cancel::handler(&g, &admin(), &mut round), Ok(()));
    assert_eq!(
        emergency_cancel::handler(&g, &admin(), &mut round),
        Err(SocialRouletteError::RoundAlreadyCancelled)
    );
    assert_eq!(
        close_betting::handler(&mut round, START + 60),
        Err(SocialRouletteError::RoundAlreadyCancelled)
    );
}

#[test]
fn round_times_that_do_not_fit_are_refused() {
    let mut g = global();
    let vault_key = vault_address(&program_id(), 1).unwrap();
    let make = |g: &mut GlobalState, start: i64, end: i64, window: i64| {
        create_round::handler(
            g,
            &program_id(),
            &vault_key,
            addr(1),
            1,
            start,
            end,
            2,
            String::new(),
            VerificationMethod::OnChainData,
            0,
            addr(5),
            addr(6),
            window,
            0,
            NOW,
        )
    };
    assert_eq!(
        make(&mut g, START, i64::MIN, 60).unwrap_err(),
        SocialRouletteError::ArithmeticUnderflow
    );
    assert_eq!(
        make(&mut g, i64::MAX - 100, i64::MAX, 200).unwrap_err(),
        SocialRouletteError::ArithmeticOverflow
    );
    g.total_rounds = u64::MAX;
    assert_eq!(make(&mut g, START, END, 60).unwrap_err(), SocialRouletteError::ArithmeticOverflow);
    assert_eq!(g.total_rounds, u64::MAX);
}

#[test]
fn round_invariant_is_checkable() {
    let mut g = global();
    let mut round = open_round(&mut g, 1);
    assert!(round.is_well_formed(200));
    let mut vault = Vault::new(1);
    stake(&mut g, &mut round, &mut empty_stats(), &mut vault, 20, 0, 3 * SOL);
    close_betting::handler(&mut round, START + 60).unwrap();
    settle(&g, &mut round, &mut vault, 60, 3 * SOL).unwrap();
    assert!(round.is_well_formed(200));
    assert!(!round.is_well_formed(300));
    let mut broken = round.clone();
    broken.winning_pool = broken.total_pool + 1;
    assert!(!broken.is_well_formed(200));
    let mut bad_count = round.clone();
    bad_count.num_outcomes = 1;
    assert!(!bad_count.is_well_formed(200));
}
