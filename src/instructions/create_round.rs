use vstd::prelude::*;

use crate::address::{vault_address, vault_address_of, Address};
use crate::constants::{
    MAX_BETTING_DURATION, MAX_BETTING_WINDOW, MAX_OUTCOMES, MIN_BETTING_DURATION,
    MIN_BETTING_WINDOW, MIN_OUTCOMES,
};
use crate::errors::SocialRouletteError;
use crate::state::global_state::GlobalState;
use crate::state::round::{Round, RoundStatus, VerificationMethod, UNSET_OUTCOME};
use crate::utils::{validate_betting_duration, validate_future_timestamp};

verus! {

/// Why the parameters of a new round are refused, if they are, checked in
/// this order: outcome count, start in the future, round duration, betting
/// window, and a close time that fits.
pub open spec fn round_params_error(
    start_time: i64,
    end_time: i64,
    num_outcomes: u8,
    betting_window_duration: i64,
    current_time: i64,
) -> Option<SocialRouletteError> {
    if !(MIN_OUTCOMES <= num_outcomes <= MAX_OUTCOMES) {
        Some(SocialRouletteError::InvalidOutcomeCount)
    } else if start_time <= current_time {
        Some(SocialRouletteError::InvalidBettingDuration)
    } else if end_time - start_time < i64::MIN || end_time - start_time > i64::MAX {
        Some(SocialRouletteError::ArithmeticUnderflow)
    } else if !(MIN_BETTING_DURATION <= end_time - start_time <= MAX_BETTING_DURATION) {
        Some(SocialRouletteError::InvalidBettingDuration)
    } else if !(MIN_BETTING_WINDOW <= betting_window_duration <= MAX_BETTING_WINDOW) {
        Some(SocialRouletteError::InvalidBettingWindowDuration)
    } else if start_time + betting_window_duration > i64::MAX {
        Some(SocialRouletteError::ArithmeticOverflow)
    } else {
        None
    }
}

/// Opens a new round: validates its parameters, checks that `vault_key` is
/// the round's derived escrow address under `program_id`, counts the round,
/// and returns it `Active` with every counter at zero and betting open in
/// `[start_time, start_time + betting_window_duration)`.
pub fn handler(
    global_state: &mut GlobalState,
    program_id: &Address,
    vault_key: &Address,
    creator: Address,
    round_id: u64,
    start_time: i64,
    end_time: i64,
    num_outcomes: u8,
    description: String,
    verification_method: VerificationMethod,
    target_value: i64,
    data_source: Address,
    oracle: Address,
    betting_window_duration: i64,
    bump: u8,
    current_time: i64,
) -> (r: Result<Round, SocialRouletteError>)
    ensures
        round_params_error(start_time, end_time, num_outcomes, betting_window_duration, current_time)
            matches Some(e) ==> r == Err::<Round, SocialRouletteError>(e),
        round_params_error(start_time, end_time, num_outcomes, betting_window_duration, current_time)
            is None ==> {
            if vault_address_of(program_id@, round_id) != Some(vault_key@) {
                r == Err::<Round, SocialRouletteError>(SocialRouletteError::Unauthorized)
            } else if old(global_state).total_rounds == u64::MAX {
                r == Err::<Round, SocialRouletteError>(SocialRouletteError::ArithmeticOverflow)
            } else {
                r is Ok
            }
        },
        r is Err ==> *final(global_state) == *old(global_state),
        r matches Ok(round) ==> {
            &&& round == Round {
                round_id,
                creator,
                start_time,
                end_time,
                total_pool: 0,
                total_predictions: 0,
                platform_fee_collected: 0,
                num_outcomes,
                winning_outcome: UNSET_OUTCOME,
                tournament: None,
                winning_pool: 0,
                status: RoundStatus::Active,
                bump,
                betting_close_time: (start_time + betting_window_duration) as i64,
                question: description,
                verification_method,
                target_value,
                data_source,
                oracle,
            }
            &&& forall|fee_bps: u16| #[trigger] round.wf(fee_bps)
            &&& *final(global_state) == (GlobalState {
                total_rounds: (old(global_state).total_rounds + 1) as u64,
                ..*old(global_state)
            })
        },
{
    if num_outcomes < MIN_OUTCOMES || num_outcomes > MAX_OUTCOMES {
        return Err(SocialRouletteError::InvalidOutcomeCount);
    }
    match validate_future_timestamp(start_time, current_time) {
        Ok(()) => {},
        Err(e) => {
            return Err(e);
        },
    }
    match validate_betting_duration(start_time, end_time, MIN_BETTING_DURATION, MAX_BETTING_DURATION) {
        Ok(()) => {},
        Err(e) => {
            return Err(e);
        },
    }
    if betting_window_duration < MIN_BETTING_WINDOW || betting_window_duration > MAX_BETTING_WINDOW {
        return Err(SocialRouletteError::InvalidBettingWindowDuration);
    }
    let betting_close_time: i64 = match start_time.checked_add(betting_window_duration) {
        Some(t) => t,
        None => {
            return Err(SocialRouletteError::ArithmeticOverflow);
        },
    };
    match vault_address(program_id, round_id) {
        Some(derived) => {
            if !derived.same_as(vault_key) {
                return Err(SocialRouletteError::Unauthorized);
            }
        },
        None => {
            return Err(SocialRouletteError::Unauthorized);
        },
    }
    match global_state.increment_rounds() {
        Ok(()) => {},
        Err(e) => {
            return Err(e);
        },
    }
    Ok(
        Round {
            round_id,
            creator,
            start_time,
            end_time,
            total_pool: 0,
            total_predictions: 0,
            platform_fee_collected: 0,
            num_outcomes,
            winning_outcome: UNSET_OUTCOME,
            tournament: None,
            winning_pool: 0,
            status: RoundStatus::Active,
            bump,
            betting_close_time,
            question: description,
            verification_method,
            target_value,
            data_source,
            oracle,
        },
    )
}

} // verus!
