use vstd::prelude::*;

verus! {

/// Platform fee, in basis points (1 bp = 0.01%).
pub const PLATFORM_FEE_BPS: u16 = 200;

/// Basis points that make up the whole: 10000 bps = 100%.
pub const BPS_DENOMINATOR: u64 = 10000;

/// Smallest stake accepted, in lamports (0.001 SOL).
pub const MIN_PREDICTION_AMOUNT: u64 = 1_000_000;

/// Largest stake accepted, in lamports (100 SOL).
pub const MAX_PREDICTION_AMOUNT: u64 = 100_000_000_000;

/// Shortest round, from start to end, in seconds.
pub const MIN_BETTING_DURATION: i64 = 60;

/// Longest round, from start to end, in seconds (seven days).
pub const MAX_BETTING_DURATION: i64 = 86400 * 7;

/// Shortest betting window after a round's start, in seconds.
pub const MIN_BETTING_WINDOW: i64 = 10;

/// Longest betting window after a round's start, in seconds.
pub const MAX_BETTING_WINDOW: i64 = 300;

/// Oldest price record accepted at settlement, in seconds.
pub const MAX_PRICE_AGE: i64 = 60;

/// Most predictions one round accepts.
pub const MAX_PREDICTIONS_PER_ROUND: u32 = 10000;

/// Fewest outcomes a round may have.
pub const MIN_OUTCOMES: u8 = 2;

/// Most outcomes a round may have.
pub const MAX_OUTCOMES: u8 = 10;

/// Most rounds in one tournament.
pub const MAX_TOURNAMENT_ROUNDS: u8 = 20;

/// Smallest tournament entry fee, in lamports (0.01 SOL).
pub const MIN_TOURNAMENT_ENTRY_FEE: u64 = 10_000_000;

} // verus!
