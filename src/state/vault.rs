use vstd::prelude::*;

use crate::errors::SocialRouletteError;

verus! {

/// The escrow of one round: the funds staked on it and not yet paid out.
/// Every deposit adds exactly its amount; every withdrawal is checked
/// against the balance first and either takes exactly its amount or fails
/// with nothing taken.
#[derive(Clone, Copy, Debug, PartialEq, Eq, Structural)]
pub struct Vault {
    pub round_id: u64,
    pub balance: u64,
}

impl Vault {
    /// An empty vault for the round.
    pub fn new(round_id: u64) -> (r: Vault)
        ensures
            r == (Vault { round_id, balance: 0 }),
    {
        Vault { round_id, balance: 0 }
    }

    /// Takes in `amount`. Fails, changing nothing, when the balance would
    /// overflow.
    pub fn deposit(&mut self, amount: u64) -> (r: Result<(), SocialRouletteError>)
        ensures
            r is Ok <==> old(self).balance + amount <= u64::MAX,
            r is Err ==> r == Err::<(), SocialRouletteError>(
                SocialRouletteError::ArithmeticOverflow,
            ) && *final(self) == *old(self),
            r is Ok ==> final(self).balance == old(self).balance + amount && final(self).round_id
                == old(self).round_id,
    {
        match self.balance.checked_add(amount) {
            Some(b) => {
                self.balance = b;
                Ok(())
            },
            None => Err(SocialRouletteError::ArithmeticOverflow),
        }
    }

    /// Pays out `amount`. Fails, changing nothing, when the balance is short.
    pub fn withdraw(&mut self, amount: u64) -> (r: Result<(), SocialRouletteError>)
        ensures
            r is Ok <==> amount <= old(self).balance,
            r is Err ==> r == Err::<(), SocialRouletteError>(
                SocialRouletteError::InsufficientVaultBalance,
            ) && *final(self) == *old(self),
            r is Ok ==> final(self).balance == old(self).balance - amount && final(self).round_id
                == old(self).round_id,
    {
        if self.balance < amount {
            return Err(SocialRouletteError::InsufficientVaultBalance);
        }
        self.balance = self.balance - amount;
        Ok(())
    }
}

} // verus!
