//! The fixed economic parameters of the sale.

use vstd::prelude::*;

verus! {

/// Number of pricing phases.
pub const PHASE_COUNT: usize = 5;

/// Largest amount of pledge tokens that may be locked.
pub const TOTAL_PLEDGE_SUPPLY: u64 = 100_000_000;

/// Total supply of reward tokens.
pub const TOTAL_SOLHIT_SUPPLY: u64 = 14_000_000;

/// Reward tokens that are held back and can never be claimed.
pub const LOCKED_SOLHIT_TOKENS: u64 = 4_000_000;

/// Length of the vesting window in seconds (two years).
pub const VESTING_PERIOD: u64 = 63_072_000;

/// Reward tokens minted per vested pledge token.
pub const REWARD_RATE: u64 = 40;

/// Length of each pricing phase in seconds; the last phase never ends.
pub const PHASE_DURATIONS: [u64; 5] = [
    1_296_000,
    1_296_000,
    1_296_000,
    1_296_000,
    0xffff_ffff_ffff_ffff,
];

/// Price multiplier of each phase in percent (200 means 2.00 times).
pub const PHASE_RATES: [u64; 5] = [200, 175, 150, 125, 100];

/// The economic parameters that every operation works with. A value is
/// built afresh for each operation and never changed.
pub struct PledgeContract {
    pub total_pledge_supply: u64,
    pub solhit_token_supply: u64,
    pub locked_solhit_tokens: u64,
    pub vesting_period: u64,
    pub reward_rate: u64,
    pub phase_durations: [u64; 5],
    pub phase_rates: [u64; 5],
}

impl PledgeContract {
    /// The parameters of the sale as the named constants give them.
    pub open spec fn standard() -> PledgeContract {
        PledgeContract {
            total_pledge_supply: TOTAL_PLEDGE_SUPPLY,
            solhit_token_supply: TOTAL_SOLHIT_SUPPLY,
            locked_solhit_tokens: LOCKED_SOLHIT_TOKENS,
            vesting_period: VESTING_PERIOD,
            reward_rate: REWARD_RATE,
            phase_durations: PHASE_DURATIONS,
            phase_rates: PHASE_RATES,
        }
    }

    /// Builds the parameters of the sale from the named constants.
    pub fn new() -> (config: Self)
        ensures
            config == Self::standard(),
            config.total_pledge_supply == 100_000_000,
            config.solhit_token_supply == 14_000_000,
            config.locked_solhit_tokens == 4_000_000,
            config.vesting_period == 63_072_000,
            config.reward_rate == 40,
            config.phase_durations@ == seq![
                1_296_000u64,
                1_296_000u64,
                1_296_000u64,
                1_296_000u64,
                u64::MAX,
            ],
            config.phase_rates@ == seq![200u64, 175u64, 150u64, 125u64, 100u64],
    {
        Self {
            total_pledge_supply: TOTAL_PLEDGE_SUPPLY,
            solhit_token_supply: TOTAL_SOLHIT_SUPPLY,
            locked_solhit_tokens: LOCKED_SOLHIT_TOKENS,
            vesting_period: VESTING_PERIOD,
            reward_rate: REWARD_RATE,
            phase_durations: PHASE_DURATIONS,
            phase_rates: PHASE_RATES,
        }
    }
}

} // verus!
