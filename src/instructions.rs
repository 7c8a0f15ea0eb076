//! The operations of the engine, one module each. Every operation either
//! succeeds as a whole or fails with all the state it was handed unchanged.
//! Reading the clock, moving funds between accounts and emitting events are
//! left to the host: an operation takes the current time as an argument and
//! returns the amount that the host must transfer.

pub mod claim_winnings;
pub mod close_betting;
pub mod create_round;
pub mod create_tournament;
pub mod emergency_cancel;
pub mod initialize;
pub mod mint_moment_card;
pub mod pause_program;
pub mod place_prediction;
pub mod refund_prediction;
pub mod settle_round;
pub mod unpause_program;
