use vstd::prelude::*;

use crate::address::Address;
use crate::errors::SocialRouletteError;
use crate::oracle::{oracle_outcome, resolve_outcome};
use crate::state::global_state::GlobalState;
use crate::state::round::{Round, RoundStatus};
use crate::state::vault::Vault;
use crate::utils::{calculate_platform_fee, fee_of};

verus! {

/// Why settling fails, if it does, checked in this order: the signers, the
/// round's status and end time, the oracle strategy, the outcome it yields,
/// the supplied winning pool, and the fee, which must fit and be in the
/// vault.
pub open spec fn settle_error(
    global_state: GlobalState,
    round: Round,
    vault: Vault,
    admin: Address,
    oracle_signer: Address,
    oracle_data: Seq<u8>,
    slot: u64,
    winning_pool_amount: u64,
    current_time: i64,
) -> Option<SocialRouletteError> {
    if admin@ != global_state.admin@ || oracle_signer@ != round.oracle@ {
        Some(SocialRouletteError::Unauthorized)
    } else if round.status == RoundStatus::Settled {
        Some(SocialRouletteError::RoundAlreadySettled)
    } else if round.status == RoundStatus::Cancelled {
        Some(SocialRouletteError::RoundAlreadyCancelled)
    } else if round.status == RoundStatus::Active || current_time < round.end_time {
        Some(SocialRouletteError::BettingStillActive)
    } else {
        match oracle_outcome(
            round.verification_method,
            round.target_value,
            round.num_outcomes,
            oracle_data,
            slot,
            current_time,
        ) {
            Err(e) => Some(e),
            Ok(outcome) => {
                let fee = fee_of(round.total_pool as int, global_state.platform_fee_bps as int);
                if outcome >= round.num_outcomes {
                    Some(SocialRouletteError::InvalidOutcome)
                } else if winning_pool_amount > round.total_pool {
                    Some(SocialRouletteError::InvalidWinningPool)
                } else if fee > u64::MAX {
                    Some(SocialRouletteError::ArithmeticOverflow)
                } else if fee > vault.balance {
                    Some(SocialRouletteError::InsufficientVaultBalance)
                } else {
                    None
                }
            },
        }
    }
}

/// Settles a closed round whose end time has come. The strategy that the
/// round's verification method selects picks the winning outcome;
/// `winning_pool_amount` is the sum of the stakes on that outcome, supplied
/// by an aggregator that scans the round's predictions, and is trusted up to
/// the check that it is within the total pool. The platform fee leaves the
/// vault; the result is the fee, which the host pays to the platform wallet.
pub fn handler(
    global_state: &GlobalState,
    round: &mut Round,
    vault: &mut Vault,
    admin: &Address,
    oracle_signer: &Address,
    oracle_data: &[u8],
    slot: u64,
    winning_pool_amount: u64,
    current_time: i64,
) -> (r: Result<u64, SocialRouletteError>)
    requires
        old(round).wf(global_state.platform_fee_bps),
    ensures
        r is Err <==> settle_error(
            *global_state,
            *old(round),
            *old(vault),
            *admin,
            *oracle_signer,
            oracle_data@,
            slot,
            winning_pool_amount,
            current_time,
        ) is Some,
        settle_error(
            *global_state,
            *old(round),
            *old(vault),
            *admin,
            *oracle_signer,
            oracle_data@,
            slot,
            winning_pool_amount,
            current_time,
        ) matches Some(e) ==> r == Err::<u64, SocialRouletteError>(e),
        r is Err ==> *final(round) == *old(round) && *final(vault) == *old(vault),
        r matches Ok(fee) ==> {
            &&& fee == fee_of(old(round).total_pool as int, global_state.platform_fee_bps as int)
            &&& oracle_outcome(
                old(round).verification_method,
                old(round).target_value,
                old(round).num_outcomes,
                oracle_data@,
                slot,
                current_time,
            ) == Ok::<u8, SocialRouletteError>(final(round).winning_outcome)
            &&& *final(round) == Round {
                status: RoundStatus::Settled,
                winning_outcome: final(round).winning_outcome,
                winning_pool: winning_pool_amount,
                platform_fee_collected: fee,
                ..*old(round)
            }
            &&& final(vault).balance == old(vault).balance - fee
            &&& final(vault).round_id == old(vault).round_id
        },
        final(round).wf(global_state.platform_fee_bps),
{
    if !admin.same_as(&global_state.admin) || !oracle_signer.same_as(&round.oracle) {
        return Err(SocialRouletteError::Unauthorized);
    }
    if round.is_settled() {
        return Err(SocialRouletteError::RoundAlreadySettled);
    }
    if round.is_cancelled() {
        return Err(SocialRouletteError::RoundAlreadyCancelled);
    }
    if !round.can_settle(current_time) {
        return Err(SocialRouletteError::BettingStillActive);
    }
    let winning_outcome: u8 = match resolve_outcome(round, oracle_data, slot, current_time) {
        Ok(o) => o,
        Err(e) => {
            return Err(e);
        },
    };
    if winning_outcome >= round.num_outcomes {
        return Err(SocialRouletteError::InvalidOutcome);
    }
    if winning_pool_amount > round.total_pool {
        return Err(SocialRouletteError::InvalidWinningPool);
    }
    let platform_fee: u64 = match calculate_platform_fee(
        round.total_pool,
        global_state.platform_fee_bps,
    ) {
        Ok(f) => f,
        Err(e) => {
            return Err(e);
        },
    };
    match vault.withdraw(platform_fee) {
        Ok(()) => {},
        Err(e) => {
            return Err(e);
        },
    }
    round.platform_fee_collected = platform_fee;
    match round.set_winning_outcome(winning_outcome, winning_pool_amount) {
        Ok(()) => {},
        Err(e) => {
            return Err(e);
        },
    }
    Ok(platform_fee)
}

} // verus!
