//! Claims: paying out the reward balance.
//!
//! A claim is settled in two steps with the transfer of the tokens between
//! them. First it is decided whether anything is to be transferred at all and
//! whether the claimable pool covers it. Then, once the outcome of the
//! transfer is known, the balance is cleared, and only if the transfer went
//! through.

use vstd::prelude::*;
use crate::codec::serialize_user_state;
use crate::config::PledgeContract;
use crate::error::PledgeError;
use crate::event::PledgeEvent;
use crate::state::UserState;

verus! {

/// What a claim asks of the one who moves the tokens.
#[derive(Clone, Copy, Debug, PartialEq, Eq, Structural)]
pub enum ClaimStep {
    /// There is nothing to claim: no transfer is to be made.
    Nothing,
    /// This many reward tokens are to be transferred to the participant.
    Transfer(u64),
}

impl PledgeContract {
    /// The reward tokens that can be claimed at all: the supply without the
    /// part that is held back, and nothing when more is held back than there is.
    pub open spec fn claimable_pool(self) -> u64 {
        if self.solhit_token_supply >= self.locked_solhit_tokens {
            (self.solhit_token_supply - self.locked_solhit_tokens) as u64
        } else {
            0
        }
    }
}

impl UserState {
    /// The step that a claim on this record begins with.
    pub open spec fn claim_step(self, config: PledgeContract) -> Result<ClaimStep, PledgeError> {
        if self.solhit_rewards == 0 {
            Ok(ClaimStep::Nothing)
        } else if self.solhit_rewards > config.claimable_pool() {
            Err(PledgeError::InsufficientPool)
        } else {
            Ok(ClaimStep::Transfer(self.solhit_rewards))
        }
    }

    /// The record with its reward balance cleared.
    pub open spec fn cleared(self) -> UserState {
        UserState { solhit_rewards: 0, ..self }
    }

    /// The record after a claim whose transfer ended as `transferred` says.
    pub open spec fn settled(self, transferred: bool) -> Result<UserState, PledgeError> {
        if transferred {
            Ok(self.cleared())
        } else {
            Err(PledgeError::TransferFailed)
        }
    }

    /// Decides how a claim on this record begins.
    ///
    /// A record without a reward balance asks for no transfer, which is no
    /// error. A balance above the claimable pool is rejected with
    /// `InsufficientPool`. Any other balance is to be transferred in full.
    pub fn plan_claim(&self, config: &PledgeContract) -> (step: Result<ClaimStep, PledgeError>)
        ensures
            step == self.claim_step(*config),
            self.solhit_rewards == 0 ==> step == Ok::<ClaimStep, PledgeError>(ClaimStep::Nothing),
            step matches Ok(ClaimStep::Transfer(amount)) ==> amount == self.solhit_rewards && 0
                < amount <= config.claimable_pool(),
    {
        if self.solhit_rewards == 0 {
            return Ok(ClaimStep::Nothing);
        }
        let transfer_to_user_amount = self.solhit_rewards;
        let remaining_solhit_tokens = config.solhit_token_supply.saturating_sub(
            config.locked_solhit_tokens,
        );
        if transfer_to_user_amount > remaining_solhit_tokens {
            return Err(PledgeError::InsufficientPool);
        }
        Ok(ClaimStep::Transfer(transfer_to_user_amount))
    }

    /// Finishes a claim once the outcome of the transfer is known.
    ///
    /// After a transfer that went through, the reward balance is zero and
    /// the rest of the record is as before. After a failed transfer the
    /// claim fails with `TransferFailed` and there is no new record: the
    /// balance stays what it was.
    pub fn settle_claim(&self, transferred: bool) -> (result: Result<UserState, PledgeError>)
        ensures
            result == self.settled(transferred),
            result is Ok <==> transferred,
            result matches Ok(state) ==> {
                &&& state.solhit_rewards == 0
                &&& state.locked_pledge_tokens == self.locked_pledge_tokens
                &&& state.lock_start_time == self.lock_start_time
                &&& state.vesting_end_time == self.vesting_end_time
            },
            result matches Err(e) ==> e == PledgeError::TransferFailed,
    {
        if !transferred {
            return Err(PledgeError::TransferFailed);
        }
        let mut user_state = *self;
        user_state.solhit_rewards = 0;
        Ok(user_state)
    }
}

/// What a claim on the stored record `before` has led to, given that the
/// transfer, where one was made, ended as `transferred` says: the stored
/// bytes afterwards and what is returned.
pub open spec fn claim_outcome(before: Seq<u8>, transferred: bool) -> (
    Seq<u8>,
    Result<Option<PledgeEvent>, PledgeError>,
) {
    if before.len() != 32 {
        (before, Err(PledgeError::DecodeError))
    } else {
        let state = UserState::from_wire(before);
        match state.claim_step(PledgeContract::standard()) {
            Err(e) => (before, Err(e)),
            Ok(ClaimStep::Nothing) => (before, Ok(None)),
            Ok(ClaimStep::Transfer(_)) => match state.settled(transferred) {
                Err(e) => (before, Err(e)),
                Ok(after) => (
                    after.wire(),
                    Ok(Some(PledgeEvent::RewardClaim(after.solhit_rewards))),
                ),
            },
        }
    }
}

/// The amount that a claim on the stored record `before` hands to the
/// transfer, if it gets as far as a transfer.
pub open spec fn claim_transfer(before: Seq<u8>) -> Option<u64> {
    if before.len() != 32 {
        None
    } else {
        match UserState::from_wire(before).claim_step(PledgeContract::standard()) {
            Ok(ClaimStep::Transfer(amount)) => Some(amount),
            _ => None,
        }
    }
}

/// Claims the reward balance of a stored record.
///
/// `account_data` holds the record in its byte form, and `transfer` moves
/// the given number of reward tokens to the participant and says whether
/// that went through. The claim fails with `DecodeError` when `account_data`
/// is not 32 bytes long. A record without a reward balance is left alone,
/// `transfer` is not called, and no notice is returned. A balance above the
/// claimable pool fails with `InsufficientPool`, again without a call of
/// `transfer`. Otherwise `transfer` is called once with the whole balance.
/// If it reports success, `account_data` holds the record with the balance
/// cleared and the notice of the claim is returned, which reports the
/// balance after the claim. If it reports failure, the claim fails with
/// `TransferFailed`. Whenever the claim fails, `account_data` is as it was.
pub fn claim_rewards<F: FnOnce(u64) -> bool>(account_data: &mut Vec<u8>, transfer: F) -> (result:
    Result<Option<PledgeEvent>, PledgeError>)
    requires
        claim_transfer(old(account_data)@) matches Some(amount) ==> transfer.requires((amount,)),
    ensures
        match claim_transfer(old(account_data)@) {
            None => {
                &&& final(account_data)@ == claim_outcome(old(account_data)@, false).0
                &&& result == claim_outcome(old(account_data)@, false).1
            },
            Some(amount) => {
                ||| {
                    &&& transfer.ensures((amount,), true)
                    &&& final(account_data)@ == claim_outcome(old(account_data)@, true).0
                    &&& result == claim_outcome(old(account_data)@, true).1
                }
                ||| {
                    &&& transfer.ensures((amount,), false)
                    &&& final(account_data)@ == claim_outcome(old(account_data)@, false).0
                    &&& result == claim_outcome(old(account_data)@, false).1
                }
            },
        },
        result is Err ==> final(account_data)@ == old(account_data)@,
        result == Ok::<Option<PledgeEvent>, PledgeError>(None) ==> final(account_data)@ == old(
            account_data,
        )@,
{
    let user_state = UserState::try_from_slice(account_data.as_slice())?;
    let pledge_contract = PledgeContract::new();
    match user_state.plan_claim(&pledge_contract)? {
        ClaimStep::Nothing => Ok(None),
        ClaimStep::Transfer(transfer_to_user_amount) => {
            let transferred = transfer(transfer_to_user_amount);
            let user_state = user_state.settle_claim(transferred)?;
            *account_data = serialize_user_state(&user_state);
            Ok(Some(PledgeEvent::RewardClaim(user_state.solhit_rewards)))
        },
    }
}

/// A claim on a record without a reward balance changes nothing and asks
/// for no transfer, whatever a transfer would have done.
pub proof fn lemma_claim_of_nothing(before: Seq<u8>, transferred: bool)
    requires
        before.len() == 32,
        UserState::from_wire(before).solhit_rewards == 0,
    ensures
        UserState::from_wire(before).claim_step(PledgeContract::standard()) == Ok::<
            ClaimStep,
            PledgeError,
        >(ClaimStep::Nothing),
        claim_transfer(before) is None,
        claim_outcome(before, transferred).0 == before,
        claim_outcome(before, transferred).1 == Ok::<Option<PledgeEvent>, PledgeError>(None),
{
}

/// A claim whose transfer fails leaves the stored record as it was, and so
/// does every claim that fails for another reason.
pub proof fn lemma_failed_claim_keeps_record(before: Seq<u8>, transferred: bool)
    ensures
        claim_outcome(before, false).0 == before,
        claim_transfer(before) is Some ==> claim_outcome(before, false).1 == Err::<
            Option<PledgeEvent>,
            PledgeError,
        >(PledgeError::TransferFailed),
        claim_outcome(before, transferred).1 is Err ==> claim_outcome(before, transferred).0
            == before,
{
}

/// A claim whose transfer goes through clears the balance and nothing else.
pub proof fn lemma_settled_claim_clears_balance(state: UserState)
    ensures
        state.settled(true) == Ok::<UserState, PledgeError>(state.cleared()),
        state.cleared().solhit_rewards == 0,
        state.cleared().locked_pledge_tokens == state.locked_pledge_tokens,
        state.cleared().lock_start_time == state.lock_start_time,
        state.cleared().vesting_end_time == state.vesting_end_time,
        state.settled(false) == Err::<UserState, PledgeError>(PledgeError::TransferFailed),
{
}

} // verus!
