//! Purchases: turning a contribution into locked pledge tokens.
//!
//! A contribution is weighted by the rate of the phase that the time of the
//! purchase falls into. The tokens are granted only if they fit under the
//! allocation cap together with what the record has locked already.

use vstd::prelude::*;
use crate::codec::serialize_user_state;
use crate::config::PledgeContract;
use crate::error::PledgeError;
use crate::event::PledgeEvent;
use crate::phase::{get_sale_phase, sale_phase};
use crate::state::UserState;

verus! {

/// The rate in percent that applies to a purchase at `current_time`.
pub open spec fn sale_rate(current_time: u64, config: PledgeContract) -> u64 {
    config.phase_rates@[sale_phase(current_time, config.phase_durations@)]
}

/// The pledge tokens that a contribution of `amount` buys at `rate` percent,
/// rounded down.
pub open spec fn granted_tokens(amount: u64, rate: u64) -> int {
    (amount * rate) / 100
}

/// What the record may still lock under the cap; nothing when it holds the
/// cap or more already.
pub open spec fn remaining_allocation(state: UserState, config: PledgeContract) -> int {
    if state.locked_pledge_tokens <= config.total_pledge_supply {
        config.total_pledge_supply - state.locked_pledge_tokens
    } else {
        0
    }
}

/// The later of two times.
pub open spec fn later(a: int, b: int) -> int {
    if a >= b {
        a
    } else {
        b
    }
}

impl UserState {
    /// The pledge tokens that a contribution of `amount` at `current_time` buys.
    pub open spec fn grant(amount: u64, current_time: u64, config: PledgeContract) -> int {
        granted_tokens(amount, sale_rate(current_time, config))
    }

    /// Whether a contribution of `amount` at `current_time` fits under the cap.
    pub open spec fn can_purchase(
        self,
        amount: u64,
        current_time: u64,
        config: PledgeContract,
    ) -> bool {
        Self::grant(amount, current_time, config) <= remaining_allocation(self, config)
    }

    /// The record after an accepted purchase: the grant is added to the
    /// locked tokens, the vesting clock starts anew at the time of the
    /// purchase, and the vesting deadline moves out to a full vesting period
    /// from now unless it lies beyond that already.
    pub open spec fn purchased(
        self,
        amount: u64,
        current_time: u64,
        config: PledgeContract,
    ) -> UserState {
        UserState {
            locked_pledge_tokens: (self.locked_pledge_tokens + Self::grant(
                amount,
                current_time,
                config,
            )) as u64,
            solhit_rewards: self.solhit_rewards,
            lock_start_time: current_time,
            vesting_end_time: later(
                self.vesting_end_time as int,
                current_time + config.vesting_period,
            ) as u64,
        }
    }
}

/// Looks up the rate in percent that applies to a purchase at `current_time`.
pub fn get_sale_rate(current_time: u64, config: &PledgeContract) -> (rate: u64)
    ensures
        rate == sale_rate(current_time, *config),
{
    let sale_phase = get_sale_phase(current_time, &config.phase_durations);
    config.phase_rates[sale_phase]
}

impl UserState {
    /// Works out what a contribution of `amount` at `current_time` buys, and
    /// whether that fits under the cap: the grant if it does, nothing if not.
    fn grant_within_cap(&self, amount: u64, current_time: u64, config: &PledgeContract) -> (granted:
        Option<u64>)
        ensures
            granted is Some <==> self.can_purchase(amount, current_time, *config),
            granted matches Some(tokens) ==> tokens == Self::grant(amount, current_time, *config)
                && self.locked_pledge_tokens + tokens <= u64::MAX,
    {
        let rate = get_sale_rate(current_time, config);
        assert(0 <= amount * rate <= u64::MAX * u64::MAX) by (nonlinear_arith);
        let pledge_tokens: u128 = (amount as u128 * rate as u128) / 100;
        let remaining: u64 = config.total_pledge_supply.saturating_sub(self.locked_pledge_tokens);
        if pledge_tokens > remaining as u128 {
            None
        } else {
            Some(pledge_tokens as u64)
        }
    }

    /// Says whether a purchase of `amount` at `current_time` would be
    /// accepted: whether what it grants fits under the cap together with what
    /// this record has locked.
    pub fn accepts_purchase(&self, amount: u64, current_time: u64, config: &PledgeContract) -> (ok:
        bool)
        ensures
            ok == self.can_purchase(amount, current_time, *config),
    {
        self.grant_within_cap(amount, current_time, config).is_some()
    }

    /// Applies a purchase of `amount` at `current_time` to this record.
    ///
    /// The purchase is rejected with `CapExceeded` exactly when the grant is
    /// more than what the record may still lock. A contribution that grants
    /// nothing is accepted, also when the cap is used up. The vesting
    /// deadline of an accepted purchase must be a time that can be written down.
    pub fn purchase(&self, amount: u64, current_time: u64, config: &PledgeContract) -> (result:
        Result<UserState, PledgeError>)
        requires
            self.can_purchase(amount, current_time, *config) ==> current_time
                + config.vesting_period <= u64::MAX,
        ensures
            result is Ok <==> self.can_purchase(amount, current_time, *config),
            result matches Ok(state) ==> {
                &&& state == self.purchased(amount, current_time, *config)
                &&& state.locked_pledge_tokens == self.locked_pledge_tokens + Self::grant(
                    amount,
                    current_time,
                    *config,
                )
                &&& state.solhit_rewards == self.solhit_rewards
                &&& state.lock_start_time == current_time
                &&& state.vesting_end_time == later(
                    self.vesting_end_time as int,
                    current_time + config.vesting_period,
                )
                &&& state.vesting_end_time >= self.vesting_end_time
            },
            result matches Err(e) ==> e == PledgeError::CapExceeded,
    {
        let pledge_tokens = match self.grant_within_cap(amount, current_time, config) {
            Some(tokens) => tokens,
            None => {
                return Err(PledgeError::CapExceeded);
            },
        };
        let deadline: u64 = current_time + config.vesting_period;
        Ok(
            UserState {
                locked_pledge_tokens: self.locked_pledge_tokens + pledge_tokens,
                solhit_rewards: self.solhit_rewards,
                lock_start_time: current_time,
                vesting_end_time: if self.vesting_end_time >= deadline {
                    self.vesting_end_time
                } else {
                    deadline
                },
            },
        )
    }
}

/// Applies a purchase to a stored record.
///
/// `account_data` holds the record in its byte form. On success it holds the
/// record after the purchase, and the notice of the purchase is returned. The
/// purchase fails with `DecodeError` exactly when `account_data` is not 32
/// bytes long, and with `CapExceeded` exactly when the record can be read and
/// the grant does not fit under the cap. A failed purchase leaves
/// `account_data` as it was.
pub fn buy_pledge(account_data: &mut Vec<u8>, amount: u64, current_time: u64) -> (result: Result<
    PledgeEvent,
    PledgeError,
>)
    requires
        old(account_data)@.len() == 32 && UserState::from_wire(old(account_data)@).can_purchase(
            amount,
            current_time,
            PledgeContract::standard(),
        ) ==> current_time + PledgeContract::standard().vesting_period <= u64::MAX,
    ensures
        result is Ok <==> old(account_data)@.len() == 32 && UserState::from_wire(
            old(account_data)@,
        ).can_purchase(amount, current_time, PledgeContract::standard()),
        result matches Ok(event) ==> {
            let after = UserState::from_wire(old(account_data)@).purchased(
                amount,
                current_time,
                PledgeContract::standard(),
            );
            &&& final(account_data)@ == after.wire()
            &&& event == PledgeEvent::Purchase(
                amount,
                sale_rate(current_time, PledgeContract::standard()),
                after.locked_pledge_tokens,
            )
        },
        result matches Err(e) ==> {
            &&& final(account_data)@ == old(account_data)@
            &&& e == PledgeError::DecodeError <==> old(account_data)@.len() != 32
            &&& e == PledgeError::CapExceeded <==> old(account_data)@.len() == 32
        },
{
    let user_state = UserState::try_from_slice(account_data.as_slice())?;
    let pledge_contract = PledgeContract::new();
    let rate = get_sale_rate(current_time, &pledge_contract);
    let user_state = user_state.purchase(amount, current_time, &pledge_contract)?;
    *account_data = serialize_user_state(&user_state);
    Ok(PledgeEvent::Purchase(amount, rate, user_state.locked_pledge_tokens))
}

/// A contribution never buys a negative amount, and a contribution of
/// nothing buys nothing and is accepted by every record.
pub proof fn lemma_zero_contribution(state: UserState, current_time: u64, config: PledgeContract)
    ensures
        UserState::grant(0, current_time, config) == 0,
        state.can_purchase(0, current_time, config),
        forall|amount: u64| UserState::grant(amount, current_time, config) >= 0,
{
    let rate = sale_rate(current_time, config);
    assert forall|amount: u64| UserState::grant(amount, current_time, config) >= 0 by {
        assert(amount * rate >= 0) by (nonlinear_arith)
            requires
                amount >= 0,
                rate >= 0,
        ;
    }
}

/// A record that holds the whole cap, or more, accepts exactly the
/// purchases that grant nothing.
pub proof fn lemma_purchase_at_full_cap(
    state: UserState,
    amount: u64,
    current_time: u64,
    config: PledgeContract,
)
    requires
        state.locked_pledge_tokens >= config.total_pledge_supply,
    ensures
        state.can_purchase(amount, current_time, config) <==> UserState::grant(
            amount,
            current_time,
            config,
        ) == 0,
{
    lemma_zero_contribution(state, current_time, config);
}

/// An accepted purchase adds exactly the grant to the locked tokens, and a
/// record that was within the cap stays within it.
pub proof fn lemma_purchase_keeps_cap(
    state: UserState,
    amount: u64,
    current_time: u64,
    config: PledgeContract,
)
    requires
        state.can_purchase(amount, current_time, config),
    ensures
        state.purchased(amount, current_time, config).locked_pledge_tokens
            == state.locked_pledge_tokens + UserState::grant(amount, current_time, config),
        state.locked_pledge_tokens <= config.total_pledge_supply ==> state.purchased(
            amount,
            current_time,
            config,
        ).locked_pledge_tokens <= config.total_pledge_supply,
{
    lemma_zero_contribution(state, current_time, config);
}

/// The vesting deadline never moves back under purchases: after a purchase
/// at `first_time` and a later one at `second_time`, each deadline is the
/// later of the deadline before and a full vesting period from the purchase.
pub proof fn lemma_vesting_end_never_earlier(
    state: UserState,
    first_amount: u64,
    first_time: u64,
    second_amount: u64,
    second_time: u64,
    config: PledgeContract,
)
    requires
        first_time < second_time,
        second_time + config.vesting_period <= u64::MAX,
    ensures
        ({
            let first = state.purchased(first_amount, first_time, config);
            let second = first.purchased(second_amount, second_time, config);
            &&& first.vesting_end_time == later(
                state.vesting_end_time as int,
                first_time + config.vesting_period,
            )
            &&& second.vesting_end_time == later(
                first.vesting_end_time as int,
                second_time + config.vesting_period,
            )
            &&& state.vesting_end_time <= first.vesting_end_time <= second.vesting_end_time
        }),
{
}

} // verus!
