use vstd::prelude::*;

use crate::errors::SocialRouletteError;
use crate::state::prediction::Prediction;
use crate::state::round::{Round, RoundStatus};

verus! {

/// The rarity of the collectible card that commemorates a prediction.
#[derive(Clone, Copy, Debug, PartialEq, Eq, Structural)]
pub enum Rarity {
    Legendary,
    Epic,
    Rare,
    Common,
}

impl Rarity {
    /// The rarity's display name.
    pub fn name(&self) -> (r: String) {
        let s: &str = match self {
            Rarity::Legendary => "Legendary",
            Rarity::Epic => "Epic",
            Rarity::Rare => "Rare",
            Rarity::Common => "Common",
        };
        s.to_string()
    }
}

/// The rarity of a prediction's card: a losing stake is common; a winning
/// one is rarer the smaller the winning side's share of the pool, in whole
/// percent: under 20 legendary, under 40 epic, else rare.
pub open spec fn rarity_of(round: Round, prediction: Prediction) -> Rarity {
    if prediction.outcome != round.winning_outcome {
        Rarity::Common
    } else {
        let percent = round.winning_pool * 100 / round.total_pool as int;
        if percent < 20 {
            Rarity::Legendary
        } else if percent < 40 {
            Rarity::Epic
        } else {
            Rarity::Rare
        }
    }
}

/// Picks the rarity of the card to mint for a prediction on a settled round.
/// The mint itself is the host's.
pub fn handler(round: &Round, prediction: &Prediction) -> (r: Result<Rarity, SocialRouletteError>)
    requires
        round.status == RoundStatus::Settled && prediction.outcome == round.winning_outcome
            ==> round.total_pool > 0,
    ensures
        r == (if round.status != RoundStatus::Settled {
            Err(SocialRouletteError::RoundNotSettled)
        } else {
            Ok(rarity_of(*round, *prediction))
        }),
{
    if !round.is_settled() {
        return Err(SocialRouletteError::RoundNotSettled);
    }
    if !prediction.is_winner(round.winning_outcome) {
        return Ok(Rarity::Common);
    }
    let percent: u128 = (round.winning_pool as u128) * 100 / (round.total_pool as u128);
    if percent < 20 {
        Ok(Rarity::Legendary)
    } else if percent < 40 {
        Ok(Rarity::Epic)
    } else {
        Ok(Rarity::Rare)
    }
}

} // verus!
