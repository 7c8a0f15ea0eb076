use vstd::prelude::*;

use crate::errors::SocialRouletteError;

verus! {

/// The platform fee on a pool: `floor(amount * fee_bps / 10000)`.
pub open spec fn fee_of(amount: int, fee_bps: int) -> int {
    amount * fee_bps / 10000
}

/// A winner's share: nothing when no stake backs the winning outcome, else
/// `floor(user_bet * (total_pool - platform_fee) / total_winning_bets)`.
pub open spec fn winnings_of(
    user_bet: int,
    total_winning_bets: int,
    total_pool: int,
    platform_fee: int,
) -> int {
    if total_winning_bets == 0 {
        0
    } else {
        user_bet * (total_pool - platform_fee) / total_winning_bets
    }
}

/// A win rate in basis points, `floor(wins * 10000 / total)`, and 0 when
/// there is nothing to rate.
pub open spec fn win_rate_of(wins: int, total: int) -> int {
    if total == 0 {
        0
    } else {
        wins * 10000 / total
    }
}

/// The platform fee on `amount` at `fee_bps` basis points, computed with a
/// 128-bit intermediate. A fee that does not fit in `u64` (possible only
/// above 10000 bps) is an overflow, never a truncation.
pub fn calculate_platform_fee(amount: u64, fee_bps: u16) -> (r: Result<u64, SocialRouletteError>)
    ensures
        fee_of(amount as int, fee_bps as int) <= u64::MAX ==> r == Ok::<u64, SocialRouletteError>(
            fee_of(amount as int, fee_bps as int) as u64,
        ),
        fee_of(amount as int, fee_bps as int) > u64::MAX ==> r == Err::<u64, SocialRouletteError>(
            SocialRouletteError::ArithmeticOverflow,
        ),
{
    proof {
        assert((amount as int) * (fee_bps as int) <= (u64::MAX as int) * (u16::MAX as int))
            by (nonlinear_arith)
            requires
                amount <= u64::MAX,
                fee_bps <= u16::MAX,
                0 <= amount,
                0 <= fee_bps,
        ;
    }
    let product: u128 = (amount as u128) * (fee_bps as u128);
    let fee: u128 = product / 10000;
    if fee > u64::MAX as u128 {
        Err(SocialRouletteError::ArithmeticOverflow)
    } else {
        Ok(fee as u64)
    }
}

/// A winner's proportional share of the pool left after the fee, computed
/// with a 128-bit intermediate. Fails when the fee exceeds the pool, and when
/// the share does not fit in `u64` (possible only for a stake larger than the
/// winning pool).
pub fn calculate_winnings(
    user_bet: u64,
    total_winning_bets: u64,
    total_pool: u64,
    platform_fee: u64,
) -> (r: Result<u64, SocialRouletteError>)
    ensures
        total_winning_bets == 0 ==> r == Ok::<u64, SocialRouletteError>(0),
        total_winning_bets != 0 && total_pool < platform_fee ==> r == Err::<
            u64,
            SocialRouletteError,
        >(SocialRouletteError::ArithmeticUnderflow),
        total_winning_bets != 0 && total_pool >= platform_fee && winnings_of(
            user_bet as int,
            total_winning_bets as int,
            total_pool as int,
            platform_fee as int,
        ) <= u64::MAX ==> r == Ok::<u64, SocialRouletteError>(
            winnings_of(
                user_bet as int,
                total_winning_bets as int,
                total_pool as int,
                platform_fee as int,
            ) as u64,
        ),
        total_winning_bets != 0 && total_pool >= platform_fee && winnings_of(
            user_bet as int,
            total_winning_bets as int,
            total_pool as int,
            platform_fee as int,
        ) > u64::MAX ==> r == Err::<u64, SocialRouletteError>(
            SocialRouletteError::ArithmeticOverflow,
        ),
{
    if total_winning_bets == 0 {
        return Ok(0);
    }
    if total_pool < platform_fee {
        return Err(SocialRouletteError::ArithmeticUnderflow);
    }
    let distributable: u64 = total_pool - platform_fee;
    proof {
        assert((user_bet as int) * (distributable as int) <= (u64::MAX as int) * (u64::MAX as int))
            by (nonlinear_arith)
            requires
                user_bet <= u64::MAX,
                distributable <= u64::MAX,
                0 <= user_bet,
                0 <= distributable,
        ;
    }
    let product: u128 = (user_bet as u128) * (distributable as u128);
    let winnings: u128 = product / (total_winning_bets as u128);
    if winnings > u64::MAX as u128 {
        Err(SocialRouletteError::ArithmeticOverflow)
    } else {
        Ok(winnings as u64)
    }
}

/// Win rate in basis points: `floor(wins * 10000 / total)`, 0 when `total`
/// is 0, and `u64::MAX` where the quotient would not fit (only when wins far
/// exceed total).
pub fn calculate_win_rate(wins: u64, total: u64) -> (r: u64)
    ensures
        win_rate_of(wins as int, total as int) <= u64::MAX ==> r == win_rate_of(
            wins as int,
            total as int,
        ),
        win_rate_of(wins as int, total as int) > u64::MAX ==> r == u64::MAX,
{
    if total == 0 {
        return 0;
    }
    let rate: u128 = (wins as u128) * 10000 / (total as u128);
    if rate > u64::MAX as u128 {
        u64::MAX
    } else {
        rate as u64
    }
}

/// Accepts a timestamp strictly after the current time.
pub fn validate_future_timestamp(timestamp: i64, current_time: i64) -> (r: Result<
    (),
    SocialRouletteError,
>)
    ensures
        r == (if timestamp > current_time {
            Ok::<(), SocialRouletteError>(())
        } else {
            Err(SocialRouletteError::InvalidBettingDuration)
        }),
{
    if timestamp > current_time {
        Ok(())
    } else {
        Err(SocialRouletteError::InvalidBettingDuration)
    }
}

/// Accepts a span `end_time - start_time` within `[min, max]`; a span that
/// does not fit in `i64` is an arithmetic fault.
pub fn validate_betting_duration(start_time: i64, end_time: i64, min: i64, max: i64) -> (r: Result<
    (),
    SocialRouletteError,
>)
    ensures
        r == (if end_time - start_time < i64::MIN || end_time - start_time > i64::MAX {
            Err::<(), SocialRouletteError>(SocialRouletteError::ArithmeticUnderflow)
        } else if min <= end_time - start_time <= max {
            Ok(())
        } else {
            Err(SocialRouletteError::InvalidBettingDuration)
        }),
{
    let duration: i64 = match end_time.checked_sub(start_time) {
        Some(d) => d,
        None => {
            return Err(SocialRouletteError::ArithmeticUnderflow);
        },
    };
    if duration >= min && duration <= max {
        Ok(())
    } else {
        Err(SocialRouletteError::InvalidBettingDuration)
    }
}

} // verus!
