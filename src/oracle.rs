use vstd::prelude::*;

use vstd::bytes::{spec_u32_from_le_bytes, spec_u64_from_le_bytes};

use crate::constants::MAX_PRICE_AGE;
use crate::errors::SocialRouletteError;
use crate::state::round::{Round, VerificationMethod};

verus! {

// Price record layout: bytes 0..8 header, 8..16 price (i64), 16..20
// confidence (u32), 20..24 exponent (i32), 24..32 publish time (i64), all
// little-endian.
// Randomness record layout: bytes 0..8 header, then at least 32 bytes of
// entropy, whose first 8 are read as a little-endian u64.

/// The unsigned little-endian integer in bytes `start .. start + 8`.
pub open spec fn le_u64_at(data: Seq<u8>, start: int) -> u64 {
    spec_u64_from_le_bytes(data.subrange(start, start + 8))
}

/// The price field of a price record.
pub open spec fn record_price(data: Seq<u8>) -> i64 {
    le_u64_at(data, 8) as i64
}

/// The exponent field of a price record.
pub open spec fn record_exponent(data: Seq<u8>) -> i32 {
    spec_u32_from_le_bytes(data.subrange(20, 24)) as i32
}

/// The publish-time field of a price record.
pub open spec fn record_publish_time(data: Seq<u8>) -> i64 {
    le_u64_at(data, 24) as i64
}

/// The seed of a randomness record.
pub open spec fn record_seed(data: Seq<u8>) -> u64 {
    le_u64_at(data, 8)
}

pub open spec fn fits_i64(x: int) -> bool {
    i64::MIN <= x <= i64::MAX
}

/// `10^n`.
pub open spec fn pow10(n: nat) -> int
    decreases n,
{
    if n == 0 {
        1
    } else {
        10 * pow10((n - 1) as nat)
    }
}

/// Division that truncates toward zero, for a positive divisor.
pub open spec fn div_toward_zero(x: int, d: int) -> int {
    if x >= 0 {
        x / d
    } else {
        -((-x) / d)
    }
}

/// The price in cents, `price * 100` scaled by `10^exponent`, computed in
/// 64-bit signed steps; `None` when a step leaves the `i64` range.
pub open spec fn price_in_cents(price: i64, exponent: i32) -> Option<int> {
    let scaled = price * 100;
    let magnitude: nat = if exponent >= 0 {
        exponent as nat
    } else {
        (-exponent) as nat
    };
    if !fits_i64(scaled) || pow10(magnitude) > i64::MAX {
        None
    } else if exponent >= 0 {
        if fits_i64(scaled * pow10(magnitude)) {
            Some(scaled * pow10(magnitude))
        } else {
            None
        }
    } else {
        Some(div_toward_zero(scaled, pow10(magnitude)))
    }
}

/// What the price strategy decides for a round with target `target_value`,
/// from the record `data` read at `current_timestamp`: 0 when the price in
/// cents reaches the target, else 1.
pub open spec fn price_outcome(target_value: i64, data: Seq<u8>, current_timestamp: i64) -> Result<
    u8,
    SocialRouletteError,
> {
    if data.len() < 32 {
        Err(SocialRouletteError::InvalidOracle)
    } else if !fits_i64(current_timestamp - record_publish_time(data)) {
        Err(SocialRouletteError::ArithmeticOverflow)
    } else if current_timestamp - record_publish_time(data) > MAX_PRICE_AGE {
        Err(SocialRouletteError::OraclePriceStale)
    } else {
        match price_in_cents(record_price(data), record_exponent(data)) {
            None => Err(SocialRouletteError::ArithmeticOverflow),
            Some(cents) => Ok(
                if cents >= target_value {
                    0u8
                } else {
                    1u8
                },
            ),
        }
    }
}

/// What the randomness strategy decides: the seed modulo the outcome count.
pub open spec fn random_outcome(data: Seq<u8>, num_outcomes: u8) -> Result<u8, SocialRouletteError> {
    if data.len() < 40 {
        Err(SocialRouletteError::InvalidOracle)
    } else {
        Ok((record_seed(data) % (num_outcomes as u64)) as u8)
    }
}

/// What the counter strategy decides: 0 when the counter has reached the
/// target, else 1, provided the round has that outcome.
pub open spec fn counter_outcome(slot: u64, target_value: i64, num_outcomes: u8) -> Result<
    u8,
    SocialRouletteError,
> {
    let outcome: u8 = if slot >= target_value {
        0
    } else {
        1
    };
    if outcome < num_outcomes {
        Ok(outcome)
    } else {
        Err(SocialRouletteError::InvalidOutcome)
    }
}

/// What the strategy selected by `method` decides.
pub open spec fn oracle_outcome(
    method: VerificationMethod,
    target_value: i64,
    num_outcomes: u8,
    data: Seq<u8>,
    slot: u64,
    current_timestamp: i64,
) -> Result<u8, SocialRouletteError> {
    match method {
        VerificationMethod::PythPrice => price_outcome(target_value, data, current_timestamp),
        VerificationMethod::SwitchboardVRF => random_outcome(data, num_outcomes),
        VerificationMethod::OnChainData => counter_outcome(slot, target_value, num_outcomes),
        VerificationMethod::TwitterAPI => Err(SocialRouletteError::RequiresOffChainOracle),
    }
}

proof fn lemma_pow10_monotone(a: nat, b: nat)
    requires
        a <= b,
    ensures
        1 <= pow10(a) <= pow10(b),
    decreases b,
{
    if a < b {
        lemma_pow10_monotone(a, (b - 1) as nat);
    } else if a > 0 {
        lemma_pow10_monotone((a - 1) as nat, (a - 1) as nat);
    }
}

/// `10^n` when it fits in `i64`, else `None`.
fn checked_pow10(n: u32) -> (r: Option<i64>)
    ensures
        r matches Some(p) ==> p == pow10(n as nat),
        r is None ==> pow10(n as nat) > i64::MAX,
{
    let mut p: i64 = 1;
    let mut i: u32 = 0;
    while i < n
        invariant
            i <= n,
            p == pow10(i as nat),
        decreases n - i,
    {
        match p.checked_mul(10) {
            Some(q) => {
                p = q;
            },
            None => {
                proof {
                    lemma_pow10_monotone((i + 1) as nat, n as nat);
                }
                return None;
            },
        }
        i = i + 1;
    }
    Some(p)
}

/// The price in cents of a price record, scaled by its exponent; `None` on
/// an arithmetic fault.
fn normalize_price(price: i64, exponent: i32) -> (r: Option<i64>)
    ensures
        r matches Some(c) ==> price_in_cents(price, exponent) == Some(c as int),
        r is None ==> price_in_cents(price, exponent) is None,
{
    let scaled: i64 = match price.checked_mul(100) {
        Some(s) => s,
        None => {
            return None;
        },
    };
    let magnitude: u32 = if exponent >= 0 {
        exponent as u32
    } else {
        (-(exponent as i64)) as u32
    };
    let factor: i64 = match checked_pow10(magnitude) {
        Some(f) => f,
        None => {
            return None;
        },
    };
    proof {
        lemma_pow10_monotone(0, magnitude as nat);
    }
    if exponent >= 0 {
        scaled.checked_mul(factor)
    } else {
        scaled.checked_div(factor)
    }
}

/// The price strategy: reads the record, refuses it when older than
/// `MAX_PRICE_AGE` seconds, and returns 0 when the price in cents reaches
/// the round's target value, else 1.
pub fn verify_pyth_price(round: &Round, price_data: &[u8], current_timestamp: i64) -> (r: Result<
    u8,
    SocialRouletteError,
>)
    ensures
        r == price_outcome(round.target_value, price_data@, current_timestamp),
{
    if price_data.len() < 32 {
        return Err(SocialRouletteError::InvalidOracle);
    }
    let price: i64 = vstd::bytes::u64_from_le_bytes(&price_data[8..16]) as i64;
    let exponent: i32 = vstd::bytes::u32_from_le_bytes(&price_data[20..24]) as i32;
    let publish_time: i64 = vstd::bytes::u64_from_le_bytes(&price_data[24..32]) as i64;
    assert(price == record_price(price_data@));
    assert(exponent == record_exponent(price_data@));
    assert(publish_time == record_publish_time(price_data@));
    let age: i64 = match current_timestamp.checked_sub(publish_time) {
        Some(a) => a,
        None => {
            return Err(SocialRouletteError::ArithmeticOverflow);
        },
    };
    if age > MAX_PRICE_AGE {
        return Err(SocialRouletteError::OraclePriceStale);
    }
    match normalize_price(price, exponent) {
        None => Err(SocialRouletteError::ArithmeticOverflow),
        Some(cents) => {
            if cents >= round.target_value {
                Ok(0)
            } else {
                Ok(1)
            }
        },
    }
}

/// The randomness strategy: the record's seed modulo the outcome count.
pub fn verify_switchboard_vrf(vrf_data: &[u8], num_outcomes: u8) -> (r: Result<
    u8,
    SocialRouletteError,
>)
    requires
        num_outcomes > 0,
    ensures
        r == random_outcome(vrf_data@, num_outcomes),
        r matches Ok(o) ==> o < num_outcomes,
{
    if vrf_data.len() < 40 {
        return Err(SocialRouletteError::InvalidOracle);
    }
    let seed: u64 = vstd::bytes::u64_from_le_bytes(&vrf_data[8..16]);
    assert(seed == record_seed(vrf_data@));
    Ok((seed % (num_outcomes as u64)) as u8)
}

/// The counter strategy: 0 when the network's progress counter `slot` has
/// reached `target_value`, else 1; refused when the round lacks that
/// outcome.
pub fn verify_onchain_data(slot: u64, target_value: i64, num_outcomes: u8) -> (r: Result<
    u8,
    SocialRouletteError,
>)
    ensures
        r == counter_outcome(slot, target_value, num_outcomes),
{
    let reached: bool = if target_value < 0 {
        true
    } else {
        slot >= target_value as u64
    };
    let outcome: u8 = if reached {
        0
    } else {
        1
    };
    if outcome < num_outcomes {
        Ok(outcome)
    } else {
        Err(SocialRouletteError::InvalidOutcome)
    }
}

/// Runs the strategy that the round's verification method selects, on the
/// data-source record `oracle_data`, the network counter `slot` and the
/// current time. Attested rounds are refused: they cannot be settled
/// automatically.
pub fn resolve_outcome(round: &Round, oracle_data: &[u8], slot: u64, current_timestamp: i64) -> (r:
    Result<u8, SocialRouletteError>)
    requires
        round.num_outcomes > 0,
    ensures
        r == oracle_outcome(
            round.verification_method,
            round.target_value,
            round.num_outcomes,
            oracle_data@,
            slot,
            current_timestamp,
        ),
{
    match round.verification_method {
        VerificationMethod::PythPrice => verify_pyth_price(round, oracle_data, current_timestamp),
        VerificationMethod::SwitchboardVRF => verify_switchboard_vrf(oracle_data, round.num_outcomes),
        VerificationMethod::OnChainData => verify_onchain_data(
            slot,
            round.target_value,
            round.num_outcomes,
        ),
        VerificationMethod::TwitterAPI => Err(SocialRouletteError::RequiresOffChainOracle),
    }
}

} // verus!
