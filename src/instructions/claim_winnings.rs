use vstd::prelude::*;

use crate::errors::SocialRouletteError;
use crate::state::prediction::Prediction;
use crate::state::round::{Round, RoundStatus};
use crate::state::user_stats::UserStats;
use crate::state::vault::Vault;
use crate::utils::{calculate_winnings, winnings_of};

verus! {

/// The share of a settled round that a prediction's stake earns, before
/// any check: `winnings_of` over the round's pools and collected fee.
pub open spec fn payout_of(round: Round, prediction: Prediction) -> int {
    winnings_of(
        prediction.amount as int,
        round.winning_pool as int,
        round.total_pool as int,
        round.platform_fee_collected as int,
    )
}

/// What claiming a prediction's winnings yields, checked in this order: a
/// settled round, a prediction not yet paid, a stake on the winning outcome,
/// a share that can be computed and is positive, a vault that holds it, and
/// user totals that can count it.
pub open spec fn claim_result(
    round: Round,
    prediction: Prediction,
    user_stats: UserStats,
    vault: Vault,
) -> Result<u64, SocialRouletteError> {
    let w = payout_of(round, prediction);
    if round.status != RoundStatus::Settled {
        Err(SocialRouletteError::RoundNotSettled)
    } else if prediction.claimed {
        Err(SocialRouletteError::AlreadyClaimed)
    } else if prediction.outcome != round.winning_outcome {
        Err(SocialRouletteError::NoWinnings)
    } else if round.winning_pool != 0 && round.total_pool < round.platform_fee_collected {
        Err(SocialRouletteError::ArithmeticUnderflow)
    } else if w > u64::MAX {
        Err(SocialRouletteError::ArithmeticOverflow)
    } else if w == 0 {
        Err(SocialRouletteError::NoWinnings)
    } else if w > vault.balance {
        Err(SocialRouletteError::InsufficientVaultBalance)
    } else if user_stats.total_wins + 1 > u64::MAX || user_stats.total_won + w > u64::MAX
        || user_stats.net_profit + w > i64::MAX {
        Err(SocialRouletteError::ArithmeticOverflow)
    } else {
        Ok(w as u64)
    }
}

/// Pays a winning prediction its proportional share from the vault, marks
/// it paid and counts the win. The result is the amount paid, which the host
/// transfers to the user.
pub fn handler(
    round: &Round,
    prediction: &mut Prediction,
    user_stats: &mut UserStats,
    vault: &mut Vault,
) -> (r: Result<u64, SocialRouletteError>)
    ensures
        r == claim_result(*round, *old(prediction), *old(user_stats), *old(vault)),
        r is Err ==> {
            &&& *final(prediction) == *old(prediction)
            &&& *final(user_stats) == *old(user_stats)
            &&& *final(vault) == *old(vault)
        },
        r matches Ok(winnings) ==> {
            &&& *final(prediction) == Prediction { claimed: true, ..*old(prediction) }
            &&& final(vault).balance == old(vault).balance - winnings
            &&& final(vault).round_id == old(vault).round_id
            &&& *final(user_stats) == UserStats {
                total_wins: (old(user_stats).total_wins + 1) as u64,
                total_won: (old(user_stats).total_won + winnings) as u64,
                net_profit: (old(user_stats).net_profit + winnings) as i64,
                ..*old(user_stats)
            }
        },
{
    if !round.is_settled() {
        return Err(SocialRouletteError::RoundNotSettled);
    }
    if !prediction.can_claim(true) {
        return Err(SocialRouletteError::AlreadyClaimed);
    }
    if !prediction.is_winner(round.winning_outcome) {
        return Err(SocialRouletteError::NoWinnings);
    }
    let winnings: u64 = match calculate_winnings(
        prediction.amount,
        round.winning_pool,
        round.total_pool,
        round.platform_fee_collected,
    ) {
        Ok(w) => w,
        Err(e) => {
            return Err(e);
        },
    };
    if winnings == 0 {
        return Err(SocialRouletteError::NoWinnings);
    }
    let mut new_vault: Vault = *vault;
    match new_vault.withdraw(winnings) {
        Ok(()) => {},
        Err(e) => {
            return Err(e);
        },
    }
    let mut new_stats: UserStats = *user_stats;
    match new_stats.record_win(winnings) {
        Ok(()) => {},
        Err(e) => {
            return Err(e);
        },
    }
    let _ = prediction.mark_claimed();
    *vault = new_vault;
    *user_stats = new_stats;
    Ok(winnings)
}

} // verus!
