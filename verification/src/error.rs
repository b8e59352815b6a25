//! Why an operation was refused.

use vstd::prelude::*;

verus! {

/// The reasons for which an operation fails. A failed operation changes
/// nothing.
#[derive(Clone, Copy, Debug, PartialEq, Eq, Structural)]
pub enum GameError {
    /// The operation does not belong to the current stage, or the reveal
    /// deadline has not passed yet.
    InvalidStage,
    /// The game is suspended, or an operation that needs it suspended found
    /// it running.
    Locked,
    /// The identity already holds the other slot.
    DuplicatePlayer,
    /// The value sent, or the balance held, is below what is needed.
    InsufficientFunds,
    /// The caller holds no slot, or has opened their commitment already.
    UnknownPlayer,
    /// The revealed number is not rock, paper or scissors.
    InvalidChoice,
    /// The reveal does not hash to the stored commitment.
    InvalidCommitment,
    /// A transfer of value was rejected, or an account cannot hold more.
    TransferFailed,
    /// A payout of the settlement was rejected.
    DistributeFailed,
    /// The snapshot is not a state that the game can be in.
    InvalidSnapshot,
}

} // verus!
