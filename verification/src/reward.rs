//! Reward accrual: turning vested pledge tokens into a reward balance.
//!
//! Two deadlines decide what an update does, and they are kept apart on
//! purpose. The first runs from the start of the lock: once a full vesting
//! period has passed since then, the locked tokens vest, the reward is
//! credited and the tokens are released. The second is the vesting deadline
//! of the record: once it has passed, the tokens are released as well, but
//! without a reward when the first deadline has not passed. A purchase
//! restarts the first and can only move out the second, so the two may differ.

use vstd::prelude::*;
use crate::codec::serialize_user_state;
use crate::config::PledgeContract;
use crate::error::PledgeError;
use crate::event::PledgeEvent;
use crate::state::{unlock_vested_tokens, UserState};

verus! {

/// `value`, or the largest `u64` when `value` is larger than that.
pub open spec fn capped(value: int) -> u64 {
    if value > u64::MAX {
        u64::MAX
    } else {
        value as u64
    }
}

impl UserState {
    /// The time that has passed at `current_time` since the start of the
    /// lock; zero when the lock starts later than `current_time`.
    pub open spec fn elapsed(self, current_time: u64) -> u64 {
        if current_time >= self.lock_start_time {
            (current_time - self.lock_start_time) as u64
        } else {
            0
        }
    }

    /// Whether a full vesting period has passed since the start of the lock.
    pub open spec fn vested(self, current_time: u64, config: PledgeContract) -> bool {
        self.elapsed(current_time) >= config.vesting_period
    }

    /// The reward tokens that the locked tokens are worth.
    pub open spec fn minted(self, config: PledgeContract) -> int {
        self.locked_pledge_tokens * config.reward_rate
    }

    /// The record after a reward update at `current_time`.
    pub open spec fn accrued(self, current_time: u64, config: PledgeContract) -> UserState {
        if self.vested(current_time, config) {
            UserState {
                locked_pledge_tokens: 0,
                solhit_rewards: capped(self.solhit_rewards + self.minted(config)),
                lock_start_time: current_time,
                vesting_end_time: 0,
            }
        } else if current_time >= self.vesting_end_time {
            self.unlocked()
        } else {
            self
        }
    }

    /// Brings this record up to `current_time`.
    ///
    /// When a full vesting period has passed since the start of the lock, the
    /// locked tokens are turned into reward at the conversion rate, the
    /// reward balance grows by that amount (and stops at the largest `u64`),
    /// the lock starts anew at `current_time` and the tokens are released.
    /// Otherwise, when the vesting deadline has passed, the tokens are
    /// released without a reward. Otherwise nothing changes. The time since
    /// the start of the lock is returned with the record.
    pub fn accrue(&self, current_time: u64, config: &PledgeContract) -> (result: (UserState, u64))
        ensures
            result.0 == self.accrued(current_time, *config),
            result.1 == self.elapsed(current_time),
            result.0.solhit_rewards >= self.solhit_rewards,
            self.vested(current_time, *config) ==> {
                &&& result.0.solhit_rewards == capped(
                    self.solhit_rewards + self.locked_pledge_tokens * config.reward_rate,
                )
                &&& result.0.locked_pledge_tokens == 0
                &&& result.0.vesting_end_time == 0
                &&& result.0.lock_start_time == current_time
            },
            !self.vested(current_time, *config) ==> {
                &&& result.0.solhit_rewards == self.solhit_rewards
                &&& result.0.lock_start_time == self.lock_start_time
            },
    {
        let mut user_state = *self;
        let elapsed_time = current_time.saturating_sub(user_state.lock_start_time);
        if elapsed_time >= config.vesting_period {
            assert(0 <= user_state.locked_pledge_tokens * config.reward_rate <= u64::MAX
                * u64::MAX) by (nonlinear_arith);
            let minted: u128 = user_state.locked_pledge_tokens as u128 * config.reward_rate as u128;
            let total: u128 = user_state.solhit_rewards as u128 + minted;
            user_state.solhit_rewards = if total > u64::MAX as u128 {
                u64::MAX
            } else {
                total as u64
            };
            user_state.lock_start_time = current_time;
            unlock_vested_tokens(&mut user_state);
        } else if current_time >= user_state.vesting_end_time {
            unlock_vested_tokens(&mut user_state);
        }
        (user_state, elapsed_time)
    }
}

/// Brings a stored record up to `current_time`.
///
/// `account_data` holds the record in its byte form. The update fails, with
/// `DecodeError` and `account_data` as it was, exactly when `account_data` is
/// not 32 bytes long. Otherwise `account_data` holds the updated record, and
/// the notice of the update is returned: the reward balance after the update
/// and the time since the start of the lock.
pub fn update_reward(account_data: &mut Vec<u8>, current_time: u64) -> (result: Result<
    PledgeEvent,
    PledgeError,
>)
    ensures
        result is Ok <==> old(account_data)@.len() == 32,
        result matches Ok(event) ==> {
            let before = UserState::from_wire(old(account_data)@);
            let after = before.accrued(current_time, PledgeContract::standard());
            &&& final(account_data)@ == after.wire()
            &&& event == PledgeEvent::RewardUpdate(
                after.solhit_rewards,
                before.elapsed(current_time),
            )
        },
        result matches Err(e) ==> {
            &&& e == PledgeError::DecodeError
            &&& final(account_data)@ == old(account_data)@
        },
{
    let user_state = UserState::try_from_slice(account_data.as_slice())?;
    let pledge_contract = PledgeContract::new();
    let (user_state, elapsed_time) = user_state.accrue(current_time, &pledge_contract);
    *account_data = serialize_user_state(&user_state);
    Ok(PledgeEvent::RewardUpdate(user_state.solhit_rewards, elapsed_time))
}

/// Reads the reward balance of a stored record. Nothing is changed. This
/// fails with `DecodeError` exactly when `account_data` is not 32 bytes long.
pub fn view_rewards(account_data: &[u8]) -> (result: Result<u64, PledgeError>)
    ensures
        result is Ok <==> account_data@.len() == 32,
        result matches Ok(rewards) ==> rewards == UserState::from_wire(
            account_data@,
        ).solhit_rewards,
        result matches Err(e) ==> e == PledgeError::DecodeError,
{
    let user_state = UserState::try_from_slice(account_data)?;
    Ok(user_state.solhit_rewards)
}

/// Once a full vesting period has passed since the start of the lock, an
/// update credits the locked tokens at the conversion rate and releases
/// them. As long as the balance stays within a `u64`, it grows by exactly
/// the locked tokens times the rate.
pub proof fn lemma_vested_reward(state: UserState, current_time: u64, config: PledgeContract)
    requires
        state.vested(current_time, config),
    ensures
        ({
            let after = state.accrued(current_time, config);
            &&& after.locked_pledge_tokens == 0
            &&& after.vesting_end_time == 0
            &&& after.lock_start_time == current_time
            &&& after.solhit_rewards == capped(
                state.solhit_rewards + state.locked_pledge_tokens * config.reward_rate,
            )
            &&& state.solhit_rewards + state.locked_pledge_tokens * config.reward_rate <= u64::MAX
                ==> after.solhit_rewards - state.solhit_rewards == state.locked_pledge_tokens
                * config.reward_rate
        }),
{
}

/// An update never lowers the reward balance.
pub proof fn lemma_accrue_never_lowers_reward(
    state: UserState,
    current_time: u64,
    config: PledgeContract,
)
    ensures
        state.accrued(current_time, config).solhit_rewards >= state.solhit_rewards,
{
    assert(state.locked_pledge_tokens * config.reward_rate >= 0) by (nonlinear_arith);
}

/// The two deadlines are independent: when the vesting deadline has passed
/// but no full vesting period since the start of the lock, an update
/// releases the locked tokens and credits nothing.
pub proof fn lemma_deadline_release_credits_nothing(
    state: UserState,
    current_time: u64,
    config: PledgeContract,
)
    requires
        !state.vested(current_time, config),
        current_time >= state.vesting_end_time,
    ensures
        state.accrued(current_time, config) == state.unlocked(),
        state.accrued(current_time, config).solhit_rewards == state.solhit_rewards,
        state.accrued(current_time, config).locked_pledge_tokens == 0,
{
}

} // verus!
