use vstd::prelude::*;

use crate::address::Address;
use crate::constants::{
    MAX_BETTING_DURATION, MAX_BETTING_WINDOW, MAX_OUTCOMES, MAX_PREDICTIONS_PER_ROUND,
    MIN_BETTING_DURATION, MIN_BETTING_WINDOW, MIN_OUTCOMES,
};
use crate::errors::SocialRouletteError;
use crate::utils::{calculate_platform_fee, fee_of};

verus! {

/// Where a round stands. `Active -> Closed -> Settled` is the happy path;
/// `Active` or `Closed` may move to `Cancelled`. `Settled` and `Cancelled`
/// are terminal.
#[derive(Clone, Copy, Debug, PartialEq, Eq, Structural)]
pub enum RoundStatus {
    Active,
    Closed,
    Settled,
    Cancelled,
}

/// How the winning outcome of a round is determined at settlement.
#[derive(Clone, Copy, Debug, PartialEq, Eq, Structural)]
pub enum VerificationMethod {
    /// Compare a price record against the round's target value.
    PythPrice,
    /// Compare the network's progress counter against the target value.
    OnChainData,
    /// Attested off-chain: automatic settlement is refused.
    TwitterAPI,
    /// Draw the outcome from a randomness record.
    SwitchboardVRF,
}

/// The marker of a winning outcome that has not been set.
pub const UNSET_OUTCOME: u8 = 255;

/// One time-boxed, multi-outcome wager and its aggregate counters.
#[derive(Clone, Debug)]
pub struct Round {
    pub round_id: u64,
    pub creator: Address,
    pub start_time: i64,
    pub end_time: i64,
    /// Sum of all stakes placed on the round.
    pub total_pool: u64,
    /// Number of stakes placed on the round.
    pub total_predictions: u32,
    pub platform_fee_collected: u64,
    pub num_outcomes: u8,
    /// The winning outcome, or `UNSET_OUTCOME` until settlement.
    pub winning_outcome: u8,
    pub tournament: Option<Address>,
    /// Sum of the stakes on the winning outcome, as supplied at settlement.
    pub winning_pool: u64,
    pub status: RoundStatus,
    pub bump: u8,
    /// Stakes are accepted in `[start_time, betting_close_time)`.
    pub betting_close_time: i64,
    pub question: String,
    pub verification_method: VerificationMethod,
    /// The threshold that price and counter strategies compare against.
    pub target_value: i64,
    pub data_source: Address,
    /// The authority allowed to settle the round.
    pub oracle: Address,
}

impl Round {
    /// The round's invariant under a platform fee of `fee_bps`: the outcome
    /// count, window and duration are in range; a settled round holds a
    /// valid winning outcome, a winning pool within the total and exactly the
    /// fee of its pool; any other round has none of these set.
    pub open spec fn wf(&self, fee_bps: u16) -> bool {
        &&& MIN_OUTCOMES <= self.num_outcomes <= MAX_OUTCOMES
        &&& self.total_predictions <= MAX_PREDICTIONS_PER_ROUND
        &&& MIN_BETTING_WINDOW <= self.betting_close_time - self.start_time <= MAX_BETTING_WINDOW
        &&& MIN_BETTING_DURATION <= self.end_time - self.start_time <= MAX_BETTING_DURATION
        &&& if self.status == RoundStatus::Settled {
            &&& self.winning_outcome < self.num_outcomes
            &&& self.winning_pool <= self.total_pool
            &&& self.platform_fee_collected == fee_of(self.total_pool as int, fee_bps as int)
        } else {
            &&& self.winning_outcome == UNSET_OUTCOME
            &&& self.winning_pool == 0
            &&& self.platform_fee_collected == 0
        }
    }

    /// Whether stakes are accepted at `current_time`.
    pub open spec fn betting_active(&self, current_time: i64) -> bool {
        &&& self.status == RoundStatus::Active
        &&& current_time >= self.start_time
        &&& current_time < self.betting_close_time
    }

    /// `self` and `other` agree on every field but the given counters.
    pub open spec fn same_but_totals(&self, other: &Round) -> bool {
        &&& other.round_id == self.round_id
        &&& other.creator == self.creator
        &&& other.start_time == self.start_time
        &&& other.end_time == self.end_time
        &&& other.platform_fee_collected == self.platform_fee_collected
        &&& other.num_outcomes == self.num_outcomes
        &&& other.winning_outcome == self.winning_outcome
        &&& other.tournament == self.tournament
        &&& other.winning_pool == self.winning_pool
        &&& other.status == self.status
        &&& other.bump == self.bump
        &&& other.betting_close_time == self.betting_close_time
        &&& other.question == self.question
        &&& other.verification_method == self.verification_method
        &&& other.target_value == self.target_value
        &&& other.data_source == self.data_source
        &&& other.oracle == self.oracle
    }

    /// `self` and `other` agree on every field but the status and the
    /// settlement fields.
    pub open spec fn same_but_settlement(&self, other: &Round) -> bool {
        &&& other.round_id == self.round_id
        &&& other.creator == self.creator
        &&& other.start_time == self.start_time
        &&& other.end_time == self.end_time
        &&& other.total_pool == self.total_pool
        &&& other.total_predictions == self.total_predictions
        &&& other.num_outcomes == self.num_outcomes
        &&& other.tournament == self.tournament
        &&& other.bump == self.bump
        &&& other.betting_close_time == self.betting_close_time
        &&& other.question == self.question
        &&& other.verification_method == self.verification_method
        &&& other.target_value == self.target_value
        &&& other.data_source == self.data_source
        &&& other.oracle == self.oracle
    }

    /// Whether the round holds its invariant under a fee of `fee_bps`.
    pub fn is_well_formed(&self, fee_bps: u16) -> (r: bool)
        ensures
            r == self.wf(fee_bps),
    {
        let window: i128 = self.betting_close_time as i128 - self.start_time as i128;
        let duration: i128 = self.end_time as i128 - self.start_time as i128;
        if self.num_outcomes < MIN_OUTCOMES || self.num_outcomes > MAX_OUTCOMES
            || self.total_predictions > MAX_PREDICTIONS_PER_ROUND || window
            < MIN_BETTING_WINDOW as i128 || window > MAX_BETTING_WINDOW as i128 || duration
            < MIN_BETTING_DURATION as i128 || duration > MAX_BETTING_DURATION as i128 {
            return false;
        }
        if self.status == RoundStatus::Settled {
            let fee_matches: bool = match calculate_platform_fee(self.total_pool, fee_bps) {
                Ok(fee) => fee == self.platform_fee_collected,
                Err(_) => false,
            };
            self.winning_outcome < self.num_outcomes && self.winning_pool <= self.total_pool
                && fee_matches
        } else {
            self.winning_outcome == UNSET_OUTCOME && self.winning_pool == 0
                && self.platform_fee_collected == 0
        }
    }

    /// Whether stakes are accepted at `current_time`: the round is active
    /// and the time is within its betting window.
    pub fn is_betting_active(&self, current_time: i64) -> (r: bool)
        ensures
            r == self.betting_active(current_time),
    {
        self.status == RoundStatus::Active && current_time >= self.start_time && current_time
            < self.betting_close_time
    }

    /// Whether the round's end time has been reached.
    pub fn is_betting_ended(&self, current_time: i64) -> (r: bool)
        ensures
            r == (current_time >= self.end_time),
    {
        current_time >= self.end_time
    }

    /// Whether the round may be settled now: closed, and past its end time.
    pub fn can_settle(&self, current_time: i64) -> (r: bool)
        ensures
            r == (self.status == RoundStatus::Closed && current_time >= self.end_time),
    {
        self.status == RoundStatus::Closed && self.is_betting_ended(current_time)
    }

    pub fn is_settled(&self) -> (r: bool)
        ensures
            r == (self.status == RoundStatus::Settled),
    {
        self.status == RoundStatus::Settled
    }

    pub fn is_cancelled(&self) -> (r: bool)
        ensures
            r == (self.status == RoundStatus::Cancelled),
    {
        self.status == RoundStatus::Cancelled
    }

    /// Counts one more stake of `amount` into the pool. Fails, changing
    /// nothing, when a counter would overflow.
    pub fn add_prediction(&mut self, amount: u64, outcome: u8) -> (r: Result<
        (),
        SocialRouletteError,
    >)
        ensures
            r is Ok <==> old(self).total_pool + amount <= u64::MAX && old(self).total_predictions
                + 1 <= u32::MAX,
            r is Err ==> r == Err::<(), SocialRouletteError>(
                SocialRouletteError::ArithmeticOverflow,
            ) && *final(self) == *old(self),
            r is Ok ==> final(self).total_pool == old(self).total_pool + amount
                && final(self).total_predictions == old(self).total_predictions + 1
                && old(self).same_but_totals(final(self)),
    {
        let pool: u64 = match self.total_pool.checked_add(amount) {
            Some(p) => p,
            None => {
                return Err(SocialRouletteError::ArithmeticOverflow);
            },
        };
        let count: u32 = match self.total_predictions.checked_add(1) {
            Some(c) => c,
            None => {
                return Err(SocialRouletteError::ArithmeticOverflow);
            },
        };
        self.total_pool = pool;
        self.total_predictions = count;
        Ok(())
    }

    /// Settles a closed round on `outcome`, with `winning_pool_amount` the sum
    /// of the stakes on it. Fails, changing nothing, from any other status.
    pub fn set_winning_outcome(&mut self, outcome: u8, winning_pool_amount: u64) -> (r: Result<
        (),
        SocialRouletteError,
    >)
        ensures
            r == (match old(self).status {
                RoundStatus::Closed => Ok(()),
                RoundStatus::Active => Err(SocialRouletteError::BettingStillActive),
                RoundStatus::Settled => Err(SocialRouletteError::RoundAlreadySettled),
                RoundStatus::Cancelled => Err(SocialRouletteError::RoundAlreadyCancelled),
            }),
            r is Err ==> *final(self) == *old(self),
            r is Ok ==> final(self).status == RoundStatus::Settled && final(self).winning_outcome
                == outcome && final(self).winning_pool == winning_pool_amount
                && final(self).platform_fee_collected == old(self).platform_fee_collected
                && old(self).same_but_settlement(final(self)),
    {
        match self.status {
            RoundStatus::Closed => {},
            RoundStatus::Active => {
                return Err(SocialRouletteError::BettingStillActive);
            },
            RoundStatus::Settled => {
                return Err(SocialRouletteError::RoundAlreadySettled);
            },
            RoundStatus::Cancelled => {
                return Err(SocialRouletteError::RoundAlreadyCancelled);
            },
        }
        self.winning_outcome = outcome;
        self.winning_pool = winning_pool_amount;
        self.status = RoundStatus::Settled;
        Ok(())
    }

    /// Stops accepting stakes: `Active -> Closed`. Fails, changing nothing,
    /// from any other status.
    pub fn close_betting(&mut self) -> (r: Result<(), SocialRouletteError>)
        ensures
            r == (match old(self).status {
                RoundStatus::Active => Ok(()),
                RoundStatus::Closed => Err(SocialRouletteError::BettingEnded),
                RoundStatus::Settled => Err(SocialRouletteError::RoundAlreadySettled),
                RoundStatus::Cancelled => Err(SocialRouletteError::RoundAlreadyCancelled),
            }),
            r is Err ==> *final(self) == *old(self),
            r is Ok ==> *final(self) == (Round { status: RoundStatus::Closed, ..*old(self) }),
    {
        match self.status {
            RoundStatus::Active => {},
            RoundStatus::Closed => {
                return Err(SocialRouletteError::BettingEnded);
            },
            RoundStatus::Settled => {
                return Err(SocialRouletteError::RoundAlreadySettled);
            },
            RoundStatus::Cancelled => {
                return Err(SocialRouletteError::RoundAlreadyCancelled);
            },
        }
        self.status = RoundStatus::Closed;
        Ok(())
    }

    /// Aborts the round: `Active` or `Closed` to `Cancelled`. Fails, changing
    /// nothing, once the round is settled or cancelled.
    pub fn cancel(&mut self) -> (r: Result<(), SocialRouletteError>)
        ensures
            r == (match old(self).status {
                RoundStatus::Active | RoundStatus::Closed => Ok(()),
                RoundStatus::Settled => Err(SocialRouletteError::RoundAlreadySettled),
                RoundStatus::Cancelled => Err(SocialRouletteError::RoundAlreadyCancelled),
            }),
            r is Err ==> *final(self) == *old(self),
            r is Ok ==> *final(self) == (Round { status: RoundStatus::Cancelled, ..*old(self) }),
    {
        match self.status {
            RoundStatus::Active | RoundStatus::Closed => {},
            RoundStatus::Settled => {
                return Err(SocialRouletteError::RoundAlreadySettled);
            },
            RoundStatus::Cancelled => {
                return Err(SocialRouletteError::RoundAlreadyCancelled);
            },
        }
        self.status = RoundStatus::Cancelled;
        Ok(())
    }
}

} // verus!
