//! Settlement engine for parimutuel prediction rounds: the round state
//! machine, escrow accounting, the payout calculator and the oracle
//! strategies that pick a round's winning outcome.

pub mod constants;
pub mod errors;
pub mod utils;
pub mod address;
pub mod state;
pub mod oracle;
pub mod instructions;
pub mod laws;
