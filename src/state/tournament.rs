use vstd::prelude::*;

use crate::address::Address;
use crate::errors::SocialRouletteError;

verus! {

#[derive(Clone, Copy, Debug, PartialEq, Eq, Structural)]
pub enum TournamentStatus {
    Pending,
    Active,
    Completed,
}

/// A series of rounds with an entry fee and a prize pool.
#[derive(Clone, Copy, Debug)]
pub struct Tournament {
    pub tournament_id: u64,
    pub creator: Address,
    /// Set when the tournament completes.
    pub winner: Option<Address>,
    pub entry_fee: u64,
    pub prize_pool: u64,
    pub start_time: i64,
    pub max_rounds: u8,
    /// Rounds played so far.
    pub current_round: u8,
    pub participant_count: u64,
    pub status: TournamentStatus,
    pub bump: u8,
}

impl Tournament {
    pub fn is_active(&self, current_time: i64) -> (r: bool)
        ensures
            r == (self.status == TournamentStatus::Active && current_time >= self.start_time),
    {
        self.status == TournamentStatus::Active && current_time >= self.start_time
    }

    pub fn can_start(&self, current_time: i64) -> (r: bool)
        ensures
            r == (self.status == TournamentStatus::Pending && current_time >= self.start_time),
    {
        self.status == TournamentStatus::Pending && current_time >= self.start_time
    }

    pub fn is_completed(&self) -> (r: bool)
        ensures
            r == (self.status == TournamentStatus::Completed),
    {
        self.status == TournamentStatus::Completed
    }

    /// Admits one participant paying `entry_fee` into the prize pool. Fails,
    /// changing nothing, when a counter would overflow.
    pub fn add_participant(&mut self, entry_fee: u64) -> (r: Result<(), SocialRouletteError>)
        ensures
            r is Ok <==> old(self).participant_count < u64::MAX && old(self).prize_pool
                + entry_fee <= u64::MAX,
            r is Err ==> r == Err::<(), SocialRouletteError>(
                SocialRouletteError::ArithmeticOverflow,
            ) && *final(self) == *old(self),
            r is Ok ==> *final(self) == (Tournament {
                participant_count: (old(self).participant_count + 1) as u64,
                prize_pool: (old(self).prize_pool + entry_fee) as u64,
                ..*old(self)
            }),
    {
        let count: u64 = match self.participant_count.checked_add(1) {
            Some(c) => c,
            None => {
                return Err(SocialRouletteError::ArithmeticOverflow);
            },
        };
        let pool: u64 = match self.prize_pool.checked_add(entry_fee) {
            Some(p) => p,
            None => {
                return Err(SocialRouletteError::ArithmeticOverflow);
            },
        };
        self.participant_count = count;
        self.prize_pool = pool;
        Ok(())
    }

    /// Moves to the next round. Fails, changing nothing, once all rounds
    /// have been played.
    pub fn advance_round(&mut self) -> (r: Result<(), SocialRouletteError>)
        ensures
            r is Ok <==> old(self).current_round < old(self).max_rounds,
            r is Err ==> r == Err::<(), SocialRouletteError>(
                SocialRouletteError::MaxTournamentRoundsReached,
            ) && *final(self) == *old(self),
            r is Ok ==> *final(self) == (Tournament {
                current_round: (old(self).current_round + 1) as u8,
                ..*old(self)
            }),
    {
        if self.current_round >= self.max_rounds {
            return Err(SocialRouletteError::MaxTournamentRoundsReached);
        }
        self.current_round = self.current_round + 1;
        Ok(())
    }

    /// Records the winner and completes the tournament.
    pub fn complete(&mut self, winner: Address) -> (r: Result<(), SocialRouletteError>)
        ensures
            r is Ok,
            *final(self) == (Tournament {
                winner: Some(winner),
                status: TournamentStatus::Completed,
                ..*old(self)
            }),
    {
        self.winner = Some(winner);
        self.status = TournamentStatus::Completed;
        Ok(())
    }

    /// Starts the tournament.
    pub fn start(&mut self) -> (r: Result<(), SocialRouletteError>)
        ensures
            r is Ok,
            *final(self) == (Tournament { status: TournamentStatus::Active, ..*old(self) }),
    {
        self.status = TournamentStatus::Active;
        Ok(())
    }
}

} // verus!
