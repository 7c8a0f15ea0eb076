use vstd::prelude::*;

use crate::address::Address;
use crate::errors::SocialRouletteError;
use crate::state::global_state::GlobalState;
use crate::state::round::{Round, RoundStatus};

verus! {

/// Aborts a round that is neither settled nor cancelled: `Active` or
/// `Closed` to `Cancelled`. Only the admin may. No funds move: each stake is
/// then refunded on its own.
pub fn handler(global_state: &GlobalState, admin: &Address, round: &mut Round) -> (r: Result<
    (),
    SocialRouletteError,
>)
    ensures
        r == (if admin@ != global_state.admin@ {
            Err(SocialRouletteError::Unauthorized)
        } else {
            match old(round).status {
                RoundStatus::Active | RoundStatus::Closed => Ok(()),
                RoundStatus::Settled => Err(SocialRouletteError::RoundAlreadySettled),
                RoundStatus::Cancelled => Err(SocialRouletteError::RoundAlreadyCancelled),
            }
        }),
        r is Err ==> *final(round) == *old(round),
        r is Ok ==> *final(round) == (Round { status: RoundStatus::Cancelled, ..*old(round) }),
        forall|fee_bps: u16| old(round).wf(fee_bps) ==> #[trigger] final(round).wf(fee_bps),
{
    if !admin.same_as(&global_state.admin) {
        return Err(SocialRouletteError::Unauthorized);
    }
    if round.is_settled() {
        return Err(SocialRouletteError::RoundAlreadySettled);
    }
    round.cancel()
}

} // verus!
