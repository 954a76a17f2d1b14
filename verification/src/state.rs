//! The record that is kept for each participant.

use vstd::prelude::*;

verus! {

/// What the sale knows about one participant.
#[derive(Clone, Copy, Debug, PartialEq, Eq, Structural)]
pub struct UserState {
    /// Pledge tokens that are locked and vesting.
    pub locked_pledge_tokens: u64,
    /// Reward tokens that have accrued and are not yet claimed.
    pub solhit_rewards: u64,
    /// Time in seconds at which the vesting clock of the locked tokens started.
    pub lock_start_time: u64,
    /// Time in seconds after which the locked tokens are released in any case.
    pub vesting_end_time: u64,
}

impl UserState {
    /// The record of a participant who has not taken part yet.
    pub open spec fn blank() -> UserState {
        UserState {
            locked_pledge_tokens: 0,
            solhit_rewards: 0,
            lock_start_time: 0,
            vesting_end_time: 0,
        }
    }

    /// The record without its locked tokens and without its vesting deadline.
    pub open spec fn unlocked(self) -> UserState {
        UserState { locked_pledge_tokens: 0, vesting_end_time: 0, ..self }
    }
}

impl Default for UserState {
    /// The record of a participant who has not taken part yet: every field is zero.
    fn default() -> (state: UserState)
        ensures
            state == UserState::blank(),
    {
        UserState {
            locked_pledge_tokens: 0,
            solhit_rewards: 0,
            lock_start_time: 0,
            vesting_end_time: 0,
        }
    }
}

/// Releases the locked tokens: the locked amount and the vesting deadline are
/// set to zero, the reward balance and the start of the lock stay.
pub fn unlock_vested_tokens(user_state: &mut UserState)
    ensures
        *final(user_state) == old(user_state).unlocked(),
        final(user_state).locked_pledge_tokens == 0,
        final(user_state).vesting_end_time == 0,
        final(user_state).solhit_rewards == old(user_state).solhit_rewards,
        final(user_state).lock_start_time == old(user_state).lock_start_time,
{
    user_state.locked_pledge_tokens = 0;
    user_state.vesting_end_time = 0;
}

} // verus!
