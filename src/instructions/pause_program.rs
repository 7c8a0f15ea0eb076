use vstd::prelude::*;

use crate::address::Address;
use crate::errors::SocialRouletteError;
use crate::state::global_state::GlobalState;

verus! {

/// Stops new stakes until the program is unpaused. Only the admin may.
pub fn handler(global_state: &mut GlobalState, admin: &Address) -> (r: Result<
    (),
    SocialRouletteError,
>)
    ensures
        r is Ok <==> admin@ == old(global_state).admin@,
        r is Err ==> r == Err::<(), SocialRouletteError>(SocialRouletteError::Unauthorized)
            && *final(global_state) == *old(global_state),
        r is Ok ==> *final(global_state) == (GlobalState { paused: true, ..*old(global_state) }),
{
    if !admin.same_as(&global_state.admin) {
        return Err(SocialRouletteError::Unauthorized);
    }
    global_state.paused = true;
    Ok(())
}

} // verus!
