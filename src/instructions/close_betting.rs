use vstd::prelude::*;

use crate::errors::SocialRouletteError;
use crate::state::round::{Round, RoundStatus};

verus! {

/// Why closing `round` at `current_time` fails, if it does.
pub open spec fn close_error(round: Round, current_time: i64) -> Option<SocialRouletteError> {
    if current_time < round.betting_close_time {
        Some(SocialRouletteError::BettingStillActive)
    } else {
        match round.status {
            RoundStatus::Active => None,
            RoundStatus::Closed => Some(SocialRouletteError::BettingEnded),
            RoundStatus::Settled => Some(SocialRouletteError::RoundAlreadySettled),
            RoundStatus::Cancelled => Some(SocialRouletteError::RoundAlreadyCancelled),
        }
    }
}

/// Ends the betting window of an active round once its close time has come:
/// `Active -> Closed`.
pub fn handler(round: &mut Round, current_time: i64) -> (r: Result<(), SocialRouletteError>)
    ensures
        r is Err <==> close_error(*old(round), current_time) is Some,
        close_error(*old(round), current_time) matches Some(e) ==> r == Err::<
            (),
            SocialRouletteError,
        >(e) && *final(round) == *old(round),
        r is Ok ==> *final(round) == (Round { status: RoundStatus::Closed, ..*old(round) }),
        forall|fee_bps: u16| old(round).wf(fee_bps) ==> #[trigger] final(round).wf(fee_bps),
{
    if current_time < round.betting_close_time {
        return Err(SocialRouletteError::BettingStillActive);
    }
    round.close_betting()
}

} // verus!
