//! What an operation reports once it has been carried out.

use vstd::prelude::*;

verus! {

/// A notice of a completed operation, for whoever keeps a log of the sale.
#[derive(Clone, Copy, Debug, PartialEq, Eq, Structural)]
pub enum PledgeEvent {
    /// A purchase: the amount contributed, the rate that applied in percent,
    /// and the participant's locked total after the purchase.
    Purchase(u64, u64, u64),
    /// A reward update: the reward balance after the update, and the time
    /// that had passed since the start of the lock.
    RewardUpdate(u64, u64),
    /// A claim: the reward balance after the claim.
    RewardClaim(u64),
}

} // verus!
