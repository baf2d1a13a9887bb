//! Error taxonomy. Every failure of an operation reflects a violated
//! precondition, never a transient fault; a failing operation performs no
//! state change.

use vstd::prelude::*;

verus! {

/// Error kinds surfaced by the transfer lifecycle and the validation rules.
#[derive(Clone, Copy, PartialEq, Eq, Structural, Debug)]
pub enum RemitEasyError {
    /// Transfer amount must be greater than zero.
    InvalidAmount,
    /// Transfer has already been completed.
    TransferAlreadyCompleted,
    /// Transfer has been cancelled.
    TransferCancelled,
    /// Only the sender can cancel this transfer.
    UnauthorizedCancellation,
    /// Only the recipient can receive this transfer.
    UnauthorizedReceipt,
    /// Memo is too long.
    MemoTooLong,
    /// Fee rate exceeds 10000 basis points.
    InvalidFeePercentage,
    /// Insufficient balance in the escrow account.
    InsufficientEscrowBalance,
    /// A counter, accumulator or fee computation would overflow.
    ArithmeticOverflow,
    /// Transfer is not in pending status.
    TransferNotPending,
}

} // verus!
