use pledge_sale::config::PledgeContract;
use pledge_sale::error::PledgeError;
use pledge_sale::event::PledgeEvent;
use pledge_sale::phase::get_sale_phase;
use pledge_sale::purchase::{buy_pledge, get_sale_rate};
use pledge_sale::state::UserState;

fn record(locked: u64, rewards: u64, start: u64, end: u64) -> UserState {
    UserState {
        locked_pledge_tokens: locked,
        solhit_rewards: rewards,
        lock_start_time: start,
        vesting_end_time: end,
    }
}

#[test]
fn test_buy_pledge() {
    let mut account_data = vec![0u8; std::mem::size_of::<UserState>()];

    let amount = 1000;
    let current_time = 1_000_000;
    let result = buy_pledge(&mut account_data, amount, current_time);
    assert!(result.is_ok());

    let user_state = UserState::try_from_slice(&account_data).unwrap();
    let pledge_contract = PledgeContract::new();
    let sale_phase = get_sale_phase(current_time, &pledge_contract.phase_durations);
    let rate = pledge_contract.phase_rates[sale_phase];
    let expected_pledge_tokens = (amount * rate) / 100;

    assert_eq!(user_state.locked_pledge_tokens, expected_pledge_tokens);
    assert_eq!(user_state.lock_start_time, current_time);
    assert_eq!(
        user_state.vesting_end_time,
        current_time + pledge_contract.vesting_period
    );
}

#[test]
fn test_buy_pledge_vesting_period() {
    let mut account_data = vec![0u8; std::mem::size_of::<UserState>()];

    let amount = 500;
    let current_time = 1_000_000;

    let _result = buy_pledge(&mut account_data, amount, current_time);

    let user_state = UserState::try_from_slice(&account_data).unwrap();
    let pledge_contract = PledgeContract::new();

    assert_eq!(
        user_state.vesting_end_time,
        current_time + pledge_contract.vesting_period
    );
}

#[test]
fn test_buy_pledge_exceed_supply() {
    let mut account_data = vec![0u8; std::mem::size_of::<UserState>()];

    let pledge_contract = PledgeContract::new();
    let amount = pledge_contract.total_pledge_supply + 1;
    let current_time = 1_000_000;

    let result = buy_pledge(&mut account_data, amount, current_time);

    assert!(result.is_err());
}

#[test]
fn test_buy_pledge_invalid_amount() {
    let mut account_data = vec![0u8; std::mem::size_of::<UserState>()];

    let amount = 0;
    let current_time = 1_000_000;

    let result = buy_pledge(&mut account_data, amount, current_time);

    assert!(result.is_ok());
}

#[test]
fn buy_pledge_reports_the_purchase() {
    let mut account_data = vec![0u8; 32];
    let result = buy_pledge(&mut account_data, 1000, 1_000_000);
    assert_eq!(result, Ok(PledgeEvent::Purchase(1000, 200, 2000)));
    let stored = UserState::try_from_slice(&account_data).unwrap();
    assert_eq!(stored, record(2000, 0, 1_000_000, 64_072_000));
}

#[test]
fn buy_pledge_rejected_leaves_the_data() {
    let before = pledge_sale::codec::serialize_user_state(&record(7, 8, 9, 10));
    let mut account_data = before.clone();
    let result = buy_pledge(&mut account_data, 100_000_001, 1_000_000);
    assert_eq!(result, Err(PledgeError::CapExceeded));
    assert_eq!(account_data, before);
}

#[test]
fn buy_pledge_rejects_a_buffer_of_the_wrong_length() {
    let mut short = vec![0u8; 31];
    assert_eq!(buy_pledge(&mut short, 1, 1), Err(PledgeError::DecodeError));
    assert_eq!(short, vec![0u8; 31]);
    let mut long = vec![0u8; 33];
    assert_eq!(buy_pledge(&mut long, 1, 1), Err(PledgeError::DecodeError));
    assert_eq!(long, vec![0u8; 33]);
}

#[test]
fn purchase_grants_by_the_rate_of_the_phase() {
    let config = PledgeContract::new();
    let blank = UserState::default();
    // phase 0: 200 percent
    let first = blank.purchase(1000, 0, &config).unwrap();
    assert_eq!(first.locked_pledge_tokens, 2000);
    // phase 1 starts exactly at the end of phase 0: 175 percent
    let second = blank.purchase(1000, 1_296_000, &config).unwrap();
    assert_eq!(second.locked_pledge_tokens, 1750);
    // phase 2: 150 percent
    let third = blank.purchase(1000, 2 * 1_296_000, &config).unwrap();
    assert_eq!(third.locked_pledge_tokens, 1500);
    // phase 3: 125 percent
    let fourth = blank.purchase(1000, 3 * 1_296_000, &config).unwrap();
    assert_eq!(fourth.locked_pledge_tokens, 1250);
    // last phase: 100 percent
    let fifth = blank.purchase(1000, 4 * 1_296_000, &config).unwrap();
    assert_eq!(fifth.locked_pledge_tokens, 1000);
}

#[test]
fn purchase_rounds_the_grant_down() {
    let config = PledgeContract::new();
    let blank = UserState::default();
    // 3 * 175 / 100 = 5.25
    let state = blank.purchase(3, 1_296_000, &config).unwrap();
    assert_eq!(state.locked_pledge_tokens, 5);
    // 1 * 125 / 100 = 1.25
    let state = blank.purchase(1, 3 * 1_296_000, &config).unwrap();
    assert_eq!(state.locked_pledge_tokens, 1);
}

#[test]
fn purchase_of_nothing_is_accepted() {
    let config = PledgeContract::new();
    let state = record(5, 6, 7, 8).purchase(0, 100, &config).unwrap();
    assert_eq!(state, record(5, 6, 100, 63_072_100));
}

#[test]
fn purchase_up_to_the_cap_and_not_beyond() {
    let config = PledgeContract::new();
    let blank = UserState::default();
    // 50_000_000 at 200 percent is the whole cap
    let full = blank.purchase(50_000_000, 0, &config).unwrap();
    assert_eq!(full.locked_pledge_tokens, 100_000_000);
    // one more token does not fit
    let held = record(1, 0, 0, 0);
    assert_eq!(
        held.purchase(50_000_000, 0, &config),
        Err(PledgeError::CapExceeded)
    );
    // at the full cap only a purchase that grants nothing is accepted
    assert_eq!(full.purchase(1, 0, &config), Err(PledgeError::CapExceeded));
    let same = full.purchase(0, 5, &config).unwrap();
    assert_eq!(same.locked_pledge_tokens, 100_000_000);
}

#[test]
fn purchase_over_the_cap_already_accepts_only_nothing() {
    let config = PledgeContract::new();
    let over = record(100_000_001, 0, 0, 0);
    assert_eq!(over.purchase(1, 0, &config), Err(PledgeError::CapExceeded));
    let state = over.purchase(0, 9, &config).unwrap();
    assert_eq!(state.locked_pledge_tokens, 100_000_001);
    assert_eq!(state.lock_start_time, 9);
}

#[test]
fn purchase_with_a_huge_contribution_is_rejected_without_overflow() {
    let config = PledgeContract::new();
    let blank = UserState::default();
    assert_eq!(
        blank.purchase(u64::MAX, 0, &config),
        Err(PledgeError::CapExceeded)
    );
}

#[test]
fn purchase_adds_to_what_is_locked() {
    let config = PledgeContract::new();
    let state = record(300, 11, 1, 2).purchase(1000, 10, &config).unwrap();
    assert_eq!(state.locked_pledge_tokens, 2300);
    assert_eq!(state.solhit_rewards, 11);
    assert_eq!(state.lock_start_time, 10);
}

#[test]
fn vesting_end_moves_out_and_never_back() {
    let config = PledgeContract::new();
    let blank = UserState::default();
    let first = blank.purchase(10, 1_000, &config).unwrap();
    assert_eq!(first.vesting_end_time, 1_000 + 63_072_000);
    let second = first.purchase(10, 2_000, &config).unwrap();
    assert_eq!(second.vesting_end_time, 2_000 + 63_072_000);
    assert!(second.vesting_end_time >= first.vesting_end_time);
    // a deadline that lies further out than a full period from now stays
    let far = record(0, 0, 0, 900_000_000);
    let kept = far.purchase(10, 2_000, &config).unwrap();
    assert_eq!(kept.vesting_end_time, 900_000_000);
    // an earlier purchase after a later one does not pull the deadline in
    let back = second.purchase(10, 500, &config).unwrap();
    assert_eq!(back.vesting_end_time, 2_000 + 63_072_000);
    assert_eq!(back.lock_start_time, 500);
}

#[test]
fn sale_rate_follows_the_phase() {
    let config = PledgeContract::new();
    assert_eq!(get_sale_rate(0, &config), 200);
    assert_eq!(get_sale_rate(1_295_999, &config), 200);
    assert_eq!(get_sale_rate(1_296_000, &config), 175);
    assert_eq!(get_sale_rate(2_592_000, &config), 150);
    assert_eq!(get_sale_rate(3_888_000, &config), 125);
    assert_eq!(get_sale_rate(5_183_999, &config), 125);
    assert_eq!(get_sale_rate(5_184_000, &config), 100);
    assert_eq!(get_sale_rate(u64::MAX, &config), 100);
}

#[test]
fn contract_holds_the_named_parameters() {
    let config = PledgeContract::new();
    assert_eq!(config.total_pledge_supply, 100_000_000);
    assert_eq!(config.solhit_token_supply, 14_000_000);
    assert_eq!(config.locked_solhit_tokens, 4_000_000);
    assert_eq!(config.vesting_period, 63_072_000);
    assert_eq!(config.reward_rate, 40);
    assert_eq!(
        config.phase_durations,
        [1_296_000, 1_296_000, 1_296_000, 1_296_000, u64::MAX]
    );
    assert_eq!(config.phase_rates, [200, 175, 150, 125, 100]);
}

#[test]
fn accepts_purchase_tells_what_purchase_will_do() {
    let config = PledgeContract::new();
    let blank = UserState::default();
    assert!(blank.accepts_purchase(50_000_000, 0, &config));
    assert!(!blank.accepts_purchase(50_000_001, 0, &config));
    assert!(blank.accepts_purchase(100_000_000, 5_184_000, &config));
    assert!(!blank.accepts_purchase(100_000_001, 5_184_000, &config));
    assert!(!blank.accepts_purchase(u64::MAX, u64::MAX, &config));
    assert!(record(100_000_000, 0, 0, 0).accepts_purchase(0, u64::MAX, &config));
}
