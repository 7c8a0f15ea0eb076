use vstd::prelude::*;

use crate::errors::SocialRouletteError;
use crate::state::prediction::Prediction;
use crate::state::round::Round;
use crate::state::vault::Vault;

verus! {

/// What refunding a prediction yields, checked in this order: a cancelled
/// round, a prediction not yet paid, a positive stake, a vault that holds it.
pub open spec fn refund_result(round: Round, prediction: Prediction, vault: Vault) -> Result<
    u64,
    SocialRouletteError,
> {
    if round.status != crate::state::round::RoundStatus::Cancelled {
        Err(SocialRouletteError::RoundNotCancelled)
    } else if prediction.claimed {
        Err(SocialRouletteError::AlreadyClaimed)
    } else if prediction.amount == 0 {
        Err(SocialRouletteError::NoRefund)
    } else if prediction.amount > vault.balance {
        Err(SocialRouletteError::InsufficientVaultBalance)
    } else {
        Ok(prediction.amount)
    }
}

/// Pays back the stake of a prediction on a cancelled round and marks it
/// paid. The result is the amount, which the host transfers to the user.
pub fn handler(round: &Round, prediction: &mut Prediction, vault: &mut Vault) -> (r: Result<
    u64,
    SocialRouletteError,
>)
    ensures
        r == refund_result(*round, *old(prediction), *old(vault)),
        r is Err ==> *final(prediction) == *old(prediction) && *final(vault) == *old(vault),
        r matches Ok(amount) ==> {
            &&& *final(prediction) == Prediction { claimed: true, ..*old(prediction) }
            &&& final(vault).balance == old(vault).balance - amount
            &&& final(vault).round_id == old(vault).round_id
        },
{
    if !round.is_cancelled() {
        return Err(SocialRouletteError::RoundNotCancelled);
    }
    if prediction.claimed {
        return Err(SocialRouletteError::AlreadyClaimed);
    }
    let refund_amount: u64 = prediction.amount;
    if refund_amount == 0 {
        return Err(SocialRouletteError::NoRefund);
    }
    match vault.withdraw(refund_amount) {
        Ok(()) => {},
        Err(e) => {
            return Err(e);
        },
    }
    let _ = prediction.mark_claimed();
    Ok(refund_amount)
}

} // verus!
