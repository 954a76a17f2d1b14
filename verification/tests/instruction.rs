use pledge_sale::error::PledgeError;
use pledge_sale::instruction::{process_instruction, Instruction};

#[test]
fn selector_zero_is_a_purchase_with_its_amount() {
    let data = [0u8, 0xe8, 0x03, 0, 0, 0, 0, 0, 0];
    assert_eq!(process_instruction(&data), Ok(Instruction::BuyPledge(1000)));
    let data = [0u8, 255, 255, 255, 255, 255, 255, 255, 255, 42];
    assert_eq!(
        process_instruction(&data),
        Ok(Instruction::BuyPledge(u64::MAX))
    );
    let data = [0u8, 0, 0, 0, 0, 0, 0, 0, 1];
    assert_eq!(
        process_instruction(&data),
        Ok(Instruction::BuyPledge(1 << 56))
    );
}

#[test]
fn other_selectors_carry_nothing() {
    assert_eq!(process_instruction(&[1]), Ok(Instruction::UpdateReward));
    assert_eq!(process_instruction(&[2]), Ok(Instruction::ViewRewards));
    assert_eq!(process_instruction(&[3]), Ok(Instruction::ClaimRewards));
    assert_eq!(process_instruction(&[3, 9, 9]), Ok(Instruction::ClaimRewards));
}

#[test]
fn unknown_selector_is_rejected() {
    assert_eq!(
        process_instruction(&[4]),
        Err(PledgeError::UnrecognizedOperation)
    );
    assert_eq!(
        process_instruction(&[255, 0, 0, 0, 0, 0, 0, 0, 0]),
        Err(PledgeError::UnrecognizedOperation)
    );
}
