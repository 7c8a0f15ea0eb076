//! Facts about the engine that span several states or several operations,
//! proved over the specifications that the operations' contracts use.

use vstd::prelude::*;

use crate::constants::BPS_DENOMINATOR;
use crate::errors::SocialRouletteError;
use crate::instructions::claim_winnings::{claim_result, payout_of};
use crate::instructions::place_prediction::{round_accepts, with_stake};
use crate::state::prediction::Prediction;
use crate::state::round::{Round, RoundStatus};
use crate::state::user_stats::UserStats;
use crate::state::vault::Vault;
use crate::utils::fee_of;

verus! {

/// What a prediction can draw from a settled round: its share when it backs
/// the winning outcome, else nothing.
pub open spec fn claimable(round: Round, prediction: Prediction) -> int {
    if prediction.outcome == round.winning_outcome {
        payout_of(round, prediction)
    } else {
        0
    }
}

/// The sum of what a list of predictions can draw from a settled round.
pub open spec fn total_claimable(round: Round, predictions: Seq<Prediction>) -> int
    decreases predictions.len(),
{
    if predictions.len() == 0 {
        0
    } else {
        total_claimable(round, predictions.drop_last()) + claimable(round, predictions.last())
    }
}

/// The sum of the stakes that a list of predictions places on the winning
/// outcome.
pub open spec fn winning_stake(round: Round, predictions: Seq<Prediction>) -> int
    decreases predictions.len(),
{
    if predictions.len() == 0 {
        0
    } else {
        winning_stake(round, predictions.drop_last()) + if predictions.last().outcome
            == round.winning_outcome {
            predictions.last().amount as int
        } else {
            0
        }
    }
}

/// The round after stakes of `amounts`, in order, are counted in.
pub open spec fn after_stakes(round: Round, amounts: Seq<u64>) -> Round
    decreases amounts.len(),
{
    if amounts.len() == 0 {
        round
    } else {
        with_stake(after_stakes(round, amounts.drop_last()), amounts.last())
    }
}

/// The sum of a list of amounts.
pub open spec fn sum_of(amounts: Seq<u64>) -> int
    decreases amounts.len(),
{
    if amounts.len() == 0 {
        0
    } else {
        sum_of(amounts.drop_last()) + amounts.last()
    }
}

/// A round's pool is the sum of the stakes counted into it, and its count is
/// their number: after stakes of `amounts` on a round, `total_pool` has grown
/// by their sum and `total_predictions` by their number, so a round created
/// empty holds exactly the sum of its stakes.
pub proof fn lemma_pool_is_sum_of_stakes(round: Round, amounts: Seq<u64>)
    requires
        round.total_pool + sum_of(amounts) <= u64::MAX,
        round.total_predictions + amounts.len() <= u32::MAX,
    ensures
        after_stakes(round, amounts).total_pool == round.total_pool + sum_of(amounts),
        after_stakes(round, amounts).total_predictions == round.total_predictions
            + amounts.len(),
    decreases amounts.len(),
{
    if amounts.len() > 0 {
        lemma_sum_prefix(amounts);
        lemma_pool_is_sum_of_stakes(round, amounts.drop_last());
    }
}

proof fn lemma_sum_prefix(amounts: Seq<u64>)
    requires
        amounts.len() > 0,
    ensures
        0 <= sum_of(amounts.drop_last()) <= sum_of(amounts),
    decreases amounts.len(),
{
    if amounts.len() > 1 {
        lemma_sum_prefix(amounts.drop_last());
    }
}

/// A settled round has collected exactly the fee of its pool:
/// `platform_fee_collected == floor(total_pool * fee_bps / 10000)`.
pub proof fn lemma_settled_round_fee(round: Round, fee_bps: u16)
    requires
        round.wf(fee_bps),
        round.status == RoundStatus::Settled,
    ensures
        round.platform_fee_collected == fee_of(round.total_pool as int, fee_bps as int),
{
}

/// A fee of at most 100% leaves a pool that is not negative.
pub proof fn lemma_fee_within_pool(total_pool: u64, fee_bps: u16)
    requires
        fee_bps <= BPS_DENOMINATOR,
    ensures
        0 <= fee_of(total_pool as int, fee_bps as int) <= total_pool,
{
    assert(0 <= (total_pool as int) * (fee_bps as int) <= (total_pool as int) * 10000)
        by (nonlinear_arith)
        requires
            0 <= fee_bps <= 10000,
            0 <= total_pool,
    ;
    vstd::arithmetic::div_mod::lemma_div_is_ordered(
        (total_pool as int) * (fee_bps as int),
        (total_pool as int) * 10000,
        10000,
    );
    vstd::arithmetic::div_mod::lemma_div_multiples_vanish(total_pool as int, 10000);
    vstd::arithmetic::div_mod::lemma_div_pos_is_pos((total_pool as int) * (fee_bps as int), 10000);
}

proof fn lemma_floor_share(stake: int, distributable: int, pool: int)
    requires
        stake >= 0,
        distributable >= 0,
        pool > 0,
    ensures
        0 <= (stake * distributable / pool) * pool <= stake * distributable,
{
    let x = stake * distributable;
    assert(x >= 0) by (nonlinear_arith)
        requires
            stake >= 0,
            distributable >= 0,
            x == stake * distributable,
    ;
    vstd::arithmetic::div_mod::lemma_fundamental_div_mod(x, pool);
    vstd::arithmetic::div_mod::lemma_mod_bound(x, pool);
    vstd::arithmetic::div_mod::lemma_div_pos_is_pos(x, pool);
    vstd::arithmetic::mul::lemma_mul_nonnegative(x / pool, pool);
    vstd::arithmetic::mul::lemma_mul_is_commutative(x / pool, pool);
}

proof fn lemma_scaled_total(round: Round, predictions: Seq<Prediction>)
    requires
        round.winning_pool > 0,
        round.platform_fee_collected <= round.total_pool,
    ensures
        0 <= total_claimable(round, predictions),
        0 <= winning_stake(round, predictions),
        total_claimable(round, predictions) * (round.winning_pool as int) <= winning_stake(
            round,
            predictions,
        ) * (round.total_pool - round.platform_fee_collected),
    decreases predictions.len(),
{
    if predictions.len() > 0 {
        let rest = predictions.drop_last();
        let p = predictions.last();
        lemma_scaled_total(round, rest);
        let d = round.total_pool - round.platform_fee_collected;
        let w = round.winning_pool as int;
        let s = total_claimable(round, rest);
        let a = winning_stake(round, rest);
        if p.outcome == round.winning_outcome {
            lemma_floor_share(p.amount as int, d, w);
            let c = claimable(round, p);
            assert(c == (p.amount as int) * d / w);
            assert((s + c) * w <= (a + p.amount) * d) by (nonlinear_arith)
                requires
                    s * w <= a * d,
                    c * w <= (p.amount as int) * d,
            ;
        }
    }
}

/// The payouts of a settled round never exceed what it can distribute: when
/// the predictions' stakes on the winning outcome add up to no more than the
/// winning pool, the sum of what they can draw is at most
/// `total_pool - platform_fee_collected`. Each claim pays exactly
/// `claimable`, and a prediction is paid at most once.
pub proof fn lemma_claims_within_distributable(
    round: Round,
    fee_bps: u16,
    predictions: Seq<Prediction>,
)
    requires
        round.wf(fee_bps),
        fee_bps <= BPS_DENOMINATOR,
        round.status == RoundStatus::Settled,
        winning_stake(round, predictions) <= round.winning_pool,
    ensures
        total_claimable(round, predictions) <= round.total_pool - round.platform_fee_collected,
        forall|p: Prediction, s: UserStats, v: Vault|
            #[trigger] claim_result(round, p, s, v) matches Ok(w) ==> w == claimable(round, p),
{
    lemma_fee_within_pool(round.total_pool, fee_bps);
    if round.winning_pool > 0 {
        lemma_scaled_total(round, predictions);
        let d = round.total_pool - round.platform_fee_collected;
        let w = round.winning_pool as int;
        let t = total_claimable(round, predictions);
        let a = winning_stake(round, predictions);
        assert(t <= d) by (nonlinear_arith)
            requires
                t * w <= a * d,
                a <= w,
                w > 0,
                d >= 0,
                a >= 0,
        ;
    } else {
        lemma_no_pool_no_claims(round, predictions);
    }
}

proof fn lemma_no_pool_no_claims(round: Round, predictions: Seq<Prediction>)
    requires
        round.winning_pool == 0,
    ensures
        total_claimable(round, predictions) == 0,
    decreases predictions.len(),
{
    if predictions.len() > 0 {
        lemma_no_pool_no_claims(round, predictions.drop_last());
    }
}

/// A claim that succeeded cannot succeed again: claiming the same
/// prediction a second time fails with `AlreadyClaimed`, whatever the user's
/// totals and the vault hold then.
pub proof fn lemma_claim_once(
    round: Round,
    prediction: Prediction,
    user_stats: UserStats,
    vault: Vault,
    later_stats: UserStats,
    later_vault: Vault,
)
    requires
        claim_result(round, prediction, user_stats, vault) is Ok,
    ensures
        claim_result(round, Prediction { claimed: true, ..prediction }, later_stats, later_vault)
            == Err::<u64, SocialRouletteError>(SocialRouletteError::AlreadyClaimed),
{
}

/// Stakes commute: when a round accepts stake A and then stake B, it also
/// accepts B and then A, and both orders leave the same round, with the same
/// `total_pool` and `total_predictions`.
pub proof fn lemma_stakes_commute(
    round: Round,
    outcome_a: u8,
    amount_a: u64,
    time_a: i64,
    outcome_b: u8,
    amount_b: u64,
    time_b: i64,
)
    requires
        round_accepts(round, outcome_a, amount_a, time_a),
        round_accepts(with_stake(round, amount_a), outcome_b, amount_b, time_b),
    ensures
        round_accepts(round, outcome_b, amount_b, time_b),
        round_accepts(with_stake(round, amount_b), outcome_a, amount_a, time_a),
        with_stake(with_stake(round, amount_a), amount_b) == with_stake(
            with_stake(round, amount_b),
            amount_a,
        ),
        with_stake(with_stake(round, amount_a), amount_b).total_pool == round.total_pool + amount_a
            + amount_b,
        with_stake(with_stake(round, amount_a), amount_b).total_predictions
            == round.total_predictions + 2,
{
}

/// With no stake on the winning outcome, no claim pays: every unpaid
/// prediction of the settled round is refused with `NoWinnings`.
pub proof fn lemma_empty_winning_pool(
    round: Round,
    prediction: Prediction,
    user_stats: UserStats,
    vault: Vault,
)
    requires
        round.status == RoundStatus::Settled,
        round.winning_pool == 0,
        !prediction.claimed,
    ensures
        payout_of(round, prediction) == 0,
        claim_result(round, prediction, user_stats, vault) == Err::<u64, SocialRouletteError>(
            SocialRouletteError::NoWinnings,
        ),
{
}

} // verus!
