use vstd::prelude::*;

use crate::address::Address;
use crate::errors::SocialRouletteError;
use crate::utils::{calculate_win_rate, win_rate_of};

verus! {

/// Running totals of one user over all rounds.
#[derive(Clone, Copy, Debug)]
pub struct UserStats {
    pub user: Address,
    pub total_predictions: u64,
    pub total_wins: u64,
    pub total_wagered: u64,
    pub total_won: u64,
    /// Winnings received minus stakes placed.
    pub net_profit: i64,
    pub bump: u8,
}

impl UserStats {
    /// Counts a stake of `amount`: one more prediction, `amount` more
    /// wagered, `amount` less net profit. Fails, changing nothing, when a
    /// total would leave its range.
    pub fn record_prediction(&mut self, amount: u64) -> (r: Result<(), SocialRouletteError>)
        ensures
            r == (if old(self).total_predictions + 1 > u64::MAX || old(self).total_wagered + amount
                > u64::MAX {
                Err(SocialRouletteError::ArithmeticOverflow)
            } else if old(self).net_profit - amount < i64::MIN {
                Err(SocialRouletteError::ArithmeticUnderflow)
            } else {
                Ok(())
            }),
            r is Err ==> *final(self) == *old(self),
            r is Ok ==> *final(self) == (UserStats {
                total_predictions: (old(self).total_predictions + 1) as u64,
                total_wagered: (old(self).total_wagered + amount) as u64,
                net_profit: (old(self).net_profit - amount) as i64,
                ..*old(self)
            }),
    {
        let count: u64 = match self.total_predictions.checked_add(1) {
            Some(c) => c,
            None => {
                return Err(SocialRouletteError::ArithmeticOverflow);
            },
        };
        let wagered: u64 = match self.total_wagered.checked_add(amount) {
            Some(w) => w,
            None => {
                return Err(SocialRouletteError::ArithmeticOverflow);
            },
        };
        let profit: i128 = self.net_profit as i128 - amount as i128;
        if profit < i64::MIN as i128 {
            return Err(SocialRouletteError::ArithmeticUnderflow);
        }
        self.total_predictions = count;
        self.total_wagered = wagered;
        self.net_profit = profit as i64;
        Ok(())
    }

    /// Counts a win paying `winnings`: one more win, `winnings` more won and
    /// more net profit. Fails, changing nothing, when a total would overflow.
    pub fn record_win(&mut self, winnings: u64) -> (r: Result<(), SocialRouletteError>)
        ensures
            r == (if old(self).total_wins + 1 > u64::MAX || old(self).total_won + winnings
                > u64::MAX || old(self).net_profit + winnings > i64::MAX {
                Err(SocialRouletteError::ArithmeticOverflow)
            } else {
                Ok(())
            }),
            r is Err ==> *final(self) == *old(self),
            r is Ok ==> *final(self) == (UserStats {
                total_wins: (old(self).total_wins + 1) as u64,
                total_won: (old(self).total_won + winnings) as u64,
                net_profit: (old(self).net_profit + winnings) as i64,
                ..*old(self)
            }),
    {
        let wins: u64 = match self.total_wins.checked_add(1) {
            Some(w) => w,
            None => {
                return Err(SocialRouletteError::ArithmeticOverflow);
            },
        };
        let won: u64 = match self.total_won.checked_add(winnings) {
            Some(w) => w,
            None => {
                return Err(SocialRouletteError::ArithmeticOverflow);
            },
        };
        let profit: i128 = self.net_profit as i128 + winnings as i128;
        if profit > i64::MAX as i128 {
            return Err(SocialRouletteError::ArithmeticOverflow);
        }
        self.total_wins = wins;
        self.total_won = won;
        self.net_profit = profit as i64;
        Ok(())
    }

    /// Share of predictions won, in basis points (see `calculate_win_rate`).
    pub fn win_rate_bps(&self) -> (r: u64)
        ensures
            win_rate_of(self.total_wins as int, self.total_predictions as int) <= u64::MAX ==> r
                == win_rate_of(self.total_wins as int, self.total_predictions as int),
            win_rate_of(self.total_wins as int, self.total_predictions as int) > u64::MAX ==> r
                == u64::MAX,
    {
        calculate_win_rate(self.total_wins, self.total_predictions)
    }
}

} // verus!
