//! The ways in which an operation can be rejected.

use vstd::prelude::*;

verus! {

/// Why an operation was rejected. A rejected operation leaves the
/// participant's record as it was.
#[derive(Clone, Copy, Debug, PartialEq, Eq, Structural)]
pub enum PledgeError {
    /// The record bytes do not have the fixed record length.
    DecodeError,
    /// The purchase would grant more than what is left under the allocation cap.
    CapExceeded,
    /// The reward balance is larger than the claimable pool.
    InsufficientPool,
    /// The operation selector is not one of the known operations.
    UnrecognizedOperation,
    /// The transfer of the reward tokens was reported as failed.
    TransferFailed,
}

} // verus!
