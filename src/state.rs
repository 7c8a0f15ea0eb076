//! The records the engine keeps: rounds, predictions, per-user statistics,
//! the global configuration, tournaments and escrow vaults.

pub mod global_state;
pub mod prediction;
pub mod round;
pub mod tournament;
pub mod user_stats;
pub mod vault;
