use vstd::prelude::*;

use crate::address::Address;
use crate::constants::{MAX_TOURNAMENT_ROUNDS, MIN_TOURNAMENT_ENTRY_FEE};
use crate::errors::SocialRouletteError;
use crate::state::global_state::GlobalState;
use crate::state::tournament::{Tournament, TournamentStatus};

verus! {

/// Why a tournament's parameters are refused, if they are.
pub open spec fn tournament_params_error(
    entry_fee: u64,
    max_rounds: u8,
    start_time: i64,
    current_time: i64,
) -> Option<SocialRouletteError> {
    if entry_fee < MIN_TOURNAMENT_ENTRY_FEE {
        Some(SocialRouletteError::InvalidEntryFee)
    } else if max_rounds == 0 || max_rounds > MAX_TOURNAMENT_ROUNDS {
        Some(SocialRouletteError::MaxTournamentRoundsReached)
    } else if start_time <= current_time {
        Some(SocialRouletteError::InvalidBettingDuration)
    } else {
        None
    }
}

/// Opens a pending tournament with an empty prize pool and counts it.
pub fn handler(
    global_state: &mut GlobalState,
    creator: Address,
    tournament_id: u64,
    entry_fee: u64,
    max_rounds: u8,
    start_time: i64,
    bump: u8,
    current_time: i64,
) -> (r: Result<Tournament, SocialRouletteError>)
    ensures
        tournament_params_error(entry_fee, max_rounds, start_time, current_time) matches Some(e)
            ==> r == Err::<Tournament, SocialRouletteError>(e),
        tournament_params_error(entry_fee, max_rounds, start_time, current_time) is None ==> (r
            is Ok <==> old(global_state).total_tournaments < u64::MAX),
        r is Err ==> *final(global_state) == *old(global_state),
        r matches Ok(t) ==> {
            &&& t == Tournament {
                tournament_id,
                creator,
                winner: None,
                entry_fee,
                prize_pool: 0,
                start_time,
                max_rounds,
                current_round: 0,
                participant_count: 0,
                status: TournamentStatus::Pending,
                bump,
            }
            &&& *final(global_state) == GlobalState {
                total_tournaments: (old(global_state).total_tournaments + 1) as u64,
                ..*old(global_state)
            }
        },
{
    if entry_fee < MIN_TOURNAMENT_ENTRY_FEE {
        return Err(SocialRouletteError::InvalidEntryFee);
    }
    if max_rounds == 0 || max_rounds > MAX_TOURNAMENT_ROUNDS {
        return Err(SocialRouletteError::MaxTournamentRoundsReached);
    }
    if start_time <= current_time {
        return Err(SocialRouletteError::InvalidBettingDuration);
    }
    match global_state.increment_tournaments() {
        Ok(()) => {},
        Err(e) => {
            return Err(e);
        },
    }
    Ok(
        Tournament {
            tournament_id,
            creator,
            winner: None,
            entry_fee,
            prize_pool: 0,
            start_time,
            max_rounds,
            current_round: 0,
            participant_count: 0,
            status: TournamentStatus::Pending,
            bump,
        },
    )
}

} // verus!
