use vstd::prelude::*;

use crate::address::Address;
use crate::errors::SocialRouletteError;

verus! {

/// One user's stake on one outcome of a round. A round holds at most one
/// prediction per user: the record is keyed by (round, user). Only the
/// `claimed` flag changes once it exists.
#[derive(Clone, Copy, Debug)]
pub struct Prediction {
    pub round_id: u64,
    pub user: Address,
    pub amount: u64,
    pub outcome: u8,
    pub timestamp: i64,
    /// Set once the stake has been paid out, as winnings or as a refund.
    pub claimed: bool,
    pub bump: u8,
}

impl Prediction {
    /// Whether the stake backs `winning_outcome`.
    pub fn is_winner(&self, winning_outcome: u8) -> (r: bool)
        ensures
            r == (self.outcome == winning_outcome),
    {
        self.outcome == winning_outcome
    }

    /// Whether the stake may still be paid out from a round that is settled
    /// or not.
    pub fn can_claim(&self, round_settled: bool) -> (r: bool)
        ensures
            r == (round_settled && !self.claimed),
    {
        round_settled && !self.claimed
    }

    /// Records that the stake has been paid out.
    pub fn mark_claimed(&mut self) -> (r: Result<(), SocialRouletteError>)
        ensures
            r is Ok,
            *final(self) == (Prediction { claimed: true, ..*old(self) }),
    {
        self.claimed = true;
        Ok(())
    }
}

} // verus!
