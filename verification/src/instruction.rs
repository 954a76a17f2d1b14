//! Reading the instruction that selects an operation.
//!
//! The first byte of the instruction data selects the operation. A purchase
//! carries the contributed amount in the eight bytes that follow, as a
//! little-endian number. What follows the selector of the other operations,
//! or the amount of a purchase, is not looked at.

use vstd::prelude::*;
use vstd::bytes::{spec_u64_from_le_bytes, u64_from_le_bytes};
use vstd::slice::slice_subrange;
use crate::error::PledgeError;

verus! {

/// An operation of the sale, with what the instruction data say about it.
#[derive(Clone, Copy, Debug, PartialEq, Eq, Structural)]
pub enum Instruction {
    /// Buy pledge tokens for the given contribution.
    BuyPledge(u64),
    /// Bring the reward balance up to date.
    UpdateReward,
    /// Report the reward balance.
    ViewRewards,
    /// Pay out the reward balance.
    ClaimRewards,
}

/// The instruction that `data` stand for, or the reason why they stand for none.
pub open spec fn instruction_of(data: Seq<u8>) -> Result<Instruction, PledgeError>
    recommends
        data.len() >= 1,
        data[0] == 0 ==> data.len() >= 9,
{
    if data[0] == 0 {
        Ok(Instruction::BuyPledge(spec_u64_from_le_bytes(data.subrange(1, 9))))
    } else if data[0] == 1 {
        Ok(Instruction::UpdateReward)
    } else if data[0] == 2 {
        Ok(Instruction::ViewRewards)
    } else if data[0] == 3 {
        Ok(Instruction::ClaimRewards)
    } else {
        Err(PledgeError::UnrecognizedOperation)
    }
}

/// Reads the instruction that selects the operation to carry out.
///
/// Selector 0 is a purchase, 1 a reward update, 2 a look at the reward
/// balance, 3 a claim. Any other selector is rejected with
/// `UnrecognizedOperation`. The data must hold the selector, and behind the
/// selector of a purchase the eight bytes of the amount.
pub fn process_instruction(instruction_data: &[u8]) -> (result: Result<Instruction, PledgeError>)
    requires
        instruction_data@.len() >= 1,
        instruction_data@[0] == 0 ==> instruction_data@.len() >= 9,
    ensures
        result == instruction_of(instruction_data@),
        result is Ok <==> instruction_data@[0] <= 3,
        result matches Err(e) ==> e == PledgeError::UnrecognizedOperation,
{
    let selector: u8 = instruction_data[0];
    if selector == 0 {
        let amount = u64_from_le_bytes(slice_subrange(instruction_data, 1, 9));
        Ok(Instruction::BuyPledge(amount))
    } else if selector == 1 {
        Ok(Instruction::UpdateReward)
    } else if selector == 2 {
        Ok(Instruction::ViewRewards)
    } else if selector == 3 {
        Ok(Instruction::ClaimRewards)
    } else {
        Err(PledgeError::UnrecognizedOperation)
    }
}

} // verus!
