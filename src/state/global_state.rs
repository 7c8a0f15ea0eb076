use vstd::prelude::*;

use crate::address::Address;
use crate::constants::BPS_DENOMINATOR;
use crate::errors::SocialRouletteError;

verus! {

/// Configuration and counters shared by every operation: created once,
/// then handed explicitly to the operations that read or update it.
#[derive(Clone, Copy, Debug)]
pub struct GlobalState {
    pub admin: Address,
    /// Where settlement pays the platform fee.
    pub platform_wallet: Address,
    pub platform_fee_bps: u16,
    pub total_rounds: u64,
    pub total_tournaments: u64,
    /// Sum of all stakes ever placed.
    pub total_volume: u64,
    pub paused: bool,
    pub bump: u8,
}

impl GlobalState {
    /// The fee is at most the whole pool.
    pub open spec fn wf(&self) -> bool {
        self.platform_fee_bps <= BPS_DENOMINATOR
    }

    /// Counts one more round. Fails, changing nothing, on overflow.
    pub fn increment_rounds(&mut self) -> (r: Result<(), SocialRouletteError>)
        ensures
            r is Ok <==> old(self).total_rounds < u64::MAX,
            r is Err ==> r == Err::<(), SocialRouletteError>(
                SocialRouletteError::ArithmeticOverflow,
            ) && *final(self) == *old(self),
            r is Ok ==> *final(self) == (GlobalState {
                total_rounds: (old(self).total_rounds + 1) as u64,
                ..*old(self)
            }),
    {
        match self.total_rounds.checked_add(1) {
            Some(n) => {
                self.total_rounds = n;
                Ok(())
            },
            None => Err(SocialRouletteError::ArithmeticOverflow),
        }
    }

    /// Counts one more tournament. Fails, changing nothing, on overflow.
    pub fn increment_tournaments(&mut self) -> (r: Result<(), SocialRouletteError>)
        ensures
            r is Ok <==> old(self).total_tournaments < u64::MAX,
            r is Err ==> r == Err::<(), SocialRouletteError>(
                SocialRouletteError::ArithmeticOverflow,
            ) && *final(self) == *old(self),
            r is Ok ==> *final(self) == (GlobalState {
                total_tournaments: (old(self).total_tournaments + 1) as u64,
                ..*old(self)
            }),
    {
        match self.total_tournaments.checked_add(1) {
            Some(n) => {
                self.total_tournaments = n;
                Ok(())
            },
            None => Err(SocialRouletteError::ArithmeticOverflow),
        }
    }

    /// Adds `amount` to the volume staked. Fails, changing nothing, on
    /// overflow.
    pub fn add_volume(&mut self, amount: u64) -> (r: Result<(), SocialRouletteError>)
        ensures
            r is Ok <==> old(self).total_volume + amount <= u64::MAX,
            r is Err ==> r == Err::<(), SocialRouletteError>(
                SocialRouletteError::ArithmeticOverflow,
            ) && *final(self) == *old(self),
            r is Ok ==> *final(self) == (GlobalState {
                total_volume: (old(self).total_volume + amount) as u64,
                ..*old(self)
            }),
    {
        match self.total_volume.checked_add(amount) {
            Some(n) => {
                self.total_volume = n;
                Ok(())
            },
            None => Err(SocialRouletteError::ArithmeticOverflow),
        }
    }
}

} // verus!
