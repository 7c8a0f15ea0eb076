use vstd::prelude::*;

use crate::address::Address;
use crate::constants::{MAX_PREDICTIONS_PER_ROUND, MAX_PREDICTION_AMOUNT, MIN_PREDICTION_AMOUNT};
use crate::errors::SocialRouletteError;
use crate::state::global_state::GlobalState;
use crate::state::prediction::Prediction;
use crate::state::round::{Round, RoundStatus};
use crate::state::user_stats::UserStats;
use crate::state::vault::Vault;

verus! {

/// Why the round refuses a stake of `amount` on `outcome` at `current_time`,
/// if it does, checked in this order: betting window, amount, outcome,
/// prediction count.
pub open spec fn stake_error(round: Round, outcome: u8, amount: u64, current_time: i64) -> Option<
    SocialRouletteError,
> {
    if round.status == RoundStatus::Active && current_time < round.start_time {
        Some(SocialRouletteError::BettingNotStarted)
    } else if !round.betting_active(current_time) {
        Some(SocialRouletteError::BettingEnded)
    } else if !(MIN_PREDICTION_AMOUNT <= amount <= MAX_PREDICTION_AMOUNT) {
        Some(SocialRouletteError::InvalidPredictionAmount)
    } else if outcome >= round.num_outcomes {
        Some(SocialRouletteError::InvalidOutcome)
    } else if round.total_predictions >= MAX_PREDICTIONS_PER_ROUND {
        Some(SocialRouletteError::MaxPredictionsReached)
    } else {
        None
    }
}

/// Whether the round takes the stake and its pool can hold it.
pub open spec fn round_accepts(round: Round, outcome: u8, amount: u64, current_time: i64) -> bool {
    &&& stake_error(round, outcome, amount, current_time) is None
    &&& round.total_pool + amount <= u64::MAX
}

/// The round once a stake of `amount` is counted in.
pub open spec fn with_stake(round: Round, amount: u64) -> Round {
    Round {
        total_pool: (round.total_pool + amount) as u64,
        total_predictions: (round.total_predictions + 1) as u32,
        ..round
    }
}

/// A user's statistics as the stake finds them: a record that has never
/// counted a prediction starts afresh for `user`.
pub open spec fn stats_for(user_stats: UserStats, user: Address, bump: u8) -> UserStats {
    if user_stats.total_predictions == 0 {
        UserStats {
            user,
            total_predictions: 0,
            total_wins: 0,
            total_wagered: 0,
            total_won: 0,
            net_profit: 0,
            bump,
        }
    } else {
        user_stats
    }
}

/// Why placing the stake fails, if it does: a paused program, the round's
/// own checks, then the vault, the pool, the user's totals (as `stats_for`
/// gives them) and the global volume, each of which must hold the new
/// amount.
pub open spec fn place_error(
    global_state: GlobalState,
    round: Round,
    user_stats: UserStats,
    vault: Vault,
    outcome: u8,
    amount: u64,
    current_time: i64,
) -> Option<SocialRouletteError> {
    if global_state.paused {
        Some(SocialRouletteError::ProgramPaused)
    } else if stake_error(round, outcome, amount, current_time) is Some {
        stake_error(round, outcome, amount, current_time)
    } else if vault.balance + amount > u64::MAX {
        Some(SocialRouletteError::ArithmeticOverflow)
    } else if round.total_pool + amount > u64::MAX {
        Some(SocialRouletteError::ArithmeticOverflow)
    } else if user_stats.total_predictions + 1 > u64::MAX || user_stats.total_wagered + amount
        > u64::MAX {
        Some(SocialRouletteError::ArithmeticOverflow)
    } else if user_stats.net_profit - amount < i64::MIN {
        Some(SocialRouletteError::ArithmeticUnderflow)
    } else if global_state.total_volume + amount > u64::MAX {
        Some(SocialRouletteError::ArithmeticOverflow)
    } else {
        None
    }
}

/// Stakes `amount` of `user` on `outcome`: takes the amount into the vault,
/// counts it into the round's pool, the user's statistics and the global
/// volume, and returns the new prediction record.
pub fn handler(
    global_state: &mut GlobalState,
    round: &mut Round,
    user_stats: &mut UserStats,
    vault: &mut Vault,
    user: Address,
    outcome: u8,
    amount: u64,
    bump: u8,
    user_stats_bump: u8,
    current_time: i64,
) -> (r: Result<Prediction, SocialRouletteError>)
    ensures
        r is Err <==> place_error(
            *old(global_state),
            *old(round),
            stats_for(*old(user_stats), user, user_stats_bump),
            *old(vault),
            outcome,
            amount,
            current_time,
        ) is Some,
        place_error(
            *old(global_state),
            *old(round),
            stats_for(*old(user_stats), user, user_stats_bump),
            *old(vault),
            outcome,
            amount,
            current_time,
        ) matches Some(e) ==> r == Err::<Prediction, SocialRouletteError>(e),
        r is Err ==> {
            &&& *final(global_state) == *old(global_state)
            &&& *final(round) == *old(round)
            &&& *final(user_stats) == *old(user_stats)
            &&& *final(vault) == *old(vault)
        },
        r matches Ok(prediction) ==> {
            &&& round_accepts(*old(round), outcome, amount, current_time)
            &&& prediction == Prediction {
                round_id: old(round).round_id,
                user,
                amount,
                outcome,
                timestamp: current_time,
                claimed: false,
                bump,
            }
            &&& *final(round) == with_stake(*old(round), amount)
            &&& final(vault).balance == old(vault).balance + amount
            &&& final(vault).round_id == old(vault).round_id
            &&& {
                let before = stats_for(*old(user_stats), user, user_stats_bump);
                *final(user_stats) == UserStats {
                    total_predictions: (before.total_predictions + 1) as u64,
                    total_wagered: (before.total_wagered + amount) as u64,
                    net_profit: (before.net_profit - amount) as i64,
                    ..before
                }
            }
            &&& *final(global_state) == GlobalState {
                total_volume: (old(global_state).total_volume + amount) as u64,
                ..*old(global_state)
            }
        },
        forall|fee_bps: u16| old(round).wf(fee_bps) ==> #[trigger] final(round).wf(fee_bps),
{
    if global_state.paused {
        return Err(SocialRouletteError::ProgramPaused);
    }
    if !round.is_betting_active(current_time) {
        if round.status == RoundStatus::Active && current_time < round.start_time {
            return Err(SocialRouletteError::BettingNotStarted);
        }
        return Err(SocialRouletteError::BettingEnded);
    }
    if amount < MIN_PREDICTION_AMOUNT || amount > MAX_PREDICTION_AMOUNT {
        return Err(SocialRouletteError::InvalidPredictionAmount);
    }
    if outcome >= round.num_outcomes {
        return Err(SocialRouletteError::InvalidOutcome);
    }
    if round.total_predictions >= MAX_PREDICTIONS_PER_ROUND {
        return Err(SocialRouletteError::MaxPredictionsReached);
    }
    let mut new_vault: Vault = *vault;
    match new_vault.deposit(amount) {
        Ok(()) => {},
        Err(e) => {
            return Err(e);
        },
    }
    if round.total_pool > u64::MAX - amount {
        return Err(SocialRouletteError::ArithmeticOverflow);
    }
    let mut new_stats: UserStats = *user_stats;
    if new_stats.total_predictions == 0 {
        new_stats = UserStats {
            user,
            total_predictions: 0,
            total_wins: 0,
            total_wagered: 0,
            total_won: 0,
            net_profit: 0,
            bump: user_stats_bump,
        };
    }
    match new_stats.record_prediction(amount) {
        Ok(()) => {},
        Err(e) => {
            return Err(e);
        },
    }
    let mut new_global: GlobalState = *global_state;
    match new_global.add_volume(amount) {
        Ok(()) => {},
        Err(e) => {
            return Err(e);
        },
    }
    match round.add_prediction(amount, outcome) {
        Ok(()) => {},
        Err(e) => {
            return Err(e);
        },
    }
    *vault = new_vault;
    *user_stats = new_stats;
    *global_state = new_global;
    Ok(
        Prediction {
            round_id: round.round_id,
            user,
            amount,
            outcome,
            timestamp: current_time,
            claimed: false,
            bump,
        },
    )
}

} // verus!
