//! Accounting engine for a token sale with vesting.
//!
//! A participant contributes during one of five pricing phases and receives
//! a phase-weighted amount of locked pledge tokens. Once the vesting period
//! has passed, the locked tokens turn into a reward balance that can be
//! claimed against the claimable part of the reward supply.

pub mod claim;
pub mod codec;
pub mod config;
pub mod error;
pub mod event;
pub mod instruction;
pub mod phase;
pub mod purchase;
pub mod reward;
pub mod state;

pub use claim::{claim_rewards, ClaimStep};
pub use codec::serialize_user_state;
pub use config::PledgeContract;
pub use error::PledgeError;
pub use event::PledgeEvent;
pub use instruction::{process_instruction, Instruction};
pub use phase::get_sale_phase;
pub use purchase::{buy_pledge, get_sale_rate};
pub use reward::{update_reward, view_rewards};
pub use state::{unlock_vested_tokens, UserState};
