use vstd::prelude::*;

verus! {

/// Every way an operation of the engine can fail. A failed operation leaves
/// all the state it was handed unchanged.
#[derive(Clone, Copy, Debug, PartialEq, Eq, Structural)]
pub enum SocialRouletteError {
    BettingNotStarted,
    BettingEnded,
    BettingStillActive,
    RoundNotSettled,
    RoundAlreadySettled,
    RoundAlreadyCancelled,
    RoundNotCancelled,
    InvalidPredictionAmount,
    InvalidOutcome,
    InvalidWinningPool,
    NoWinnings,
    NoRefund,
    AlreadyClaimed,
    Unauthorized,
    InvalidBettingDuration,
    InvalidBettingWindowDuration,
    MaxPredictionsReached,
    InvalidOutcomeCount,
    ArithmeticOverflow,
    ArithmeticUnderflow,
    InsufficientVaultBalance,
    InvalidOracle,
    OraclePriceStale,
    RequiresOffChainOracle,
    InvalidEntryFee,
    MaxTournamentRoundsReached,
    ProgramPaused,
}

impl SocialRouletteError {
    /// The human-readable message of the error.
    pub fn message(&self) -> (r: String) {
        let s: &str = match self {
            SocialRouletteError::BettingNotStarted => "Betting period has not started yet",
            SocialRouletteError::BettingEnded => "Betting period has already ended",
            SocialRouletteError::BettingStillActive => "Betting period is still active",
            SocialRouletteError::RoundNotSettled => "Round has not been settled yet",
            SocialRouletteError::RoundAlreadySettled => "Round has already been settled",
            SocialRouletteError::RoundAlreadyCancelled => "Round has already been cancelled",
            SocialRouletteError::RoundNotCancelled => "Round has not been cancelled",
            SocialRouletteError::InvalidPredictionAmount =>
                "Invalid prediction amount (below minimum or above maximum)",
            SocialRouletteError::InvalidOutcome => "Invalid outcome index",
            SocialRouletteError::InvalidWinningPool => "Winning pool exceeds the total pool",
            SocialRouletteError::NoWinnings => "No winnings to claim",
            SocialRouletteError::NoRefund => "No refund available",
            SocialRouletteError::AlreadyClaimed => "Winnings already claimed",
            SocialRouletteError::Unauthorized => "Unauthorized: not the recognized authority or account",
            SocialRouletteError::InvalidBettingDuration =>
                "Invalid betting duration (too short or too long)",
            SocialRouletteError::InvalidBettingWindowDuration =>
                "Invalid betting window duration (must be 10 to 300 seconds)",
            SocialRouletteError::MaxPredictionsReached =>
                "Maximum predictions reached for this round",
            SocialRouletteError::InvalidOutcomeCount =>
                "Invalid number of outcomes (must be between 2 and 10)",
            SocialRouletteError::ArithmeticOverflow => "Arithmetic overflow occurred",
            SocialRouletteError::ArithmeticUnderflow => "Arithmetic underflow occurred",
            SocialRouletteError::InsufficientVaultBalance => "Insufficient vault balance",
            SocialRouletteError::InvalidOracle => "Invalid oracle data",
            SocialRouletteError::OraclePriceStale => "Oracle price is stale",
            SocialRouletteError::RequiresOffChainOracle =>
                "Verification method requires off-chain settlement",
            SocialRouletteError::InvalidEntryFee => "Invalid tournament entry fee",
            SocialRouletteError::MaxTournamentRoundsReached => "Maximum tournament rounds reached",
            SocialRouletteError::ProgramPaused => "Program is currently paused",
        };
        s.to_string()
    }
}

} // verus!
