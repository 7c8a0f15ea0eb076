use vstd::prelude::*;

use crate::address::Address;
use crate::constants::PLATFORM_FEE_BPS;
use crate::state::global_state::GlobalState;

verus! {

/// The one-time global setup: the standard platform fee, zeroed counters,
/// not paused.
pub fn handler(admin: Address, platform_wallet: Address, bump: u8) -> (r: GlobalState)
    ensures
        r == (GlobalState {
            admin,
            platform_wallet,
            platform_fee_bps: PLATFORM_FEE_BPS,
            total_rounds: 0,
            total_tournaments: 0,
            total_volume: 0,
            paused: false,
            bump,
        }),
        r.wf(),
{
    GlobalState {
        admin,
        platform_wallet,
        platform_fee_bps: PLATFORM_FEE_BPS,
        total_rounds: 0,
        total_tournaments: 0,
        total_volume: 0,
        paused: false,
        bump,
    }
}

} // verus!
