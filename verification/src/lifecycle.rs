//! The transfer lifecycle state machine: initialize, send, receive, cancel.
//!
//! Each operation is a transition function over plain values. The caller
//! identity, the current time and the escrow balance are handed in by the
//! surrounding runtime; the value movements an operation decides on are
//! returned as plain amounts for the custody layer to perform. Every
//! precondition is checked before any mutation: a failing operation changes
//! nothing.

use vstd::prelude::*;

use crate::errors::RemitEasyError;
use crate::state::{ProgramState, Pubkey, TransferAccount, TransferStatus};
use crate::utils::{calculate_fee, spec_fee, validate_amount, validate_fee_rate, validate_memo};

verus! {

/// The value movements of a successful receive: the net amount released to
/// the recipient and the fee kept by the program.
#[derive(Clone, Copy, Debug)]
pub struct ReleasePayout {
    /// Net amount released from escrow to the recipient.
    pub to_recipient: u64,
    /// Fee released from escrow to the program's fee-collection destination.
    pub to_fee_pool: u64,
}

/// The error a send fails with, if any: a non-positive amount, an oversized
/// memo, or a counter overflow, checked in that order.
pub open spec fn send_err(state: ProgramState, amount: u64, memo: Seq<char>) -> Option<
    RemitEasyError,
> {
    if amount == 0 {
        Some(RemitEasyError::InvalidAmount)
    } else if memo.len() > 200 {
        Some(RemitEasyError::MemoTooLong)
    } else if state.total_transfers + 1 > u64::MAX || state.total_volume + amount > u64::MAX {
        Some(RemitEasyError::ArithmeticOverflow)
    } else {
        None
    }
}

/// The error a receive fails with, if any: a settled record, a caller other
/// than the recipient, or an underfunded escrow, checked in that order.
pub open spec fn receive_err(
    transfer: TransferAccount,
    caller: Pubkey,
    escrow_balance: u64,
) -> Option<RemitEasyError> {
    if transfer.status != TransferStatus::Pending {
        Some(RemitEasyError::TransferNotPending)
    } else if caller != transfer.recipient {
        Some(RemitEasyError::UnauthorizedReceipt)
    } else if escrow_balance < transfer.amount {
        Some(RemitEasyError::InsufficientEscrowBalance)
    } else {
        None
    }
}

/// The error a cancel fails with, if any: a settled record, or a caller
/// other than the sender, checked in that order.
pub open spec fn cancel_err(transfer: TransferAccount, caller: Pubkey) -> Option<RemitEasyError> {
    if transfer.status != TransferStatus::Pending {
        Some(RemitEasyError::TransferNotPending)
    } else if caller != transfer.sender {
        Some(RemitEasyError::UnauthorizedCancellation)
    } else {
        None
    }
}

/// Create the program configuration. Valid exactly once per deployment; the
/// singleton allocation is enforced by the surrounding storage mechanism.
/// Rejects a fee rate above 10000 basis points and creates nothing then.
pub fn initialize(admin: Pubkey, fee_percentage: u16, bump: u8) -> (r: Result<
    ProgramState,
    RemitEasyError,
>)
    ensures
        fee_percentage > 10000 ==> r == Err::<ProgramState, RemitEasyError>(
            RemitEasyError::InvalidFeePercentage,
        ),
        fee_percentage <= 10000 ==> (r matches Ok(s) && s.admin == admin && s.fee_percentage
            == fee_percentage && s.total_transfers == 0 && s.total_volume == 0 && s.bump == bump),
        r matches Ok(s) ==> s.wf(),
{
    match validate_fee_rate(fee_percentage) {
        Ok(()) => Ok(
            ProgramState { admin, fee_percentage, total_transfers: 0, total_volume: 0, bump },
        ),
        Err(e) => Err(e),
    }
}

/// Open a transfer: lock `amount` in escrow for `recipient` and record it.
/// On success the returned record is pending and holds the full locked
/// amount, and the configuration's counters grow by one transfer and by
/// `amount` of volume. On any failure the configuration is untouched and no
/// record is created.
pub fn send_transfer(
    state: &mut ProgramState,
    sender: Pubkey,
    recipient: Pubkey,
    amount: u64,
    memo: String,
    created_at: i64,
    bump: u8,
) -> (r: Result<TransferAccount, RemitEasyError>)
    ensures
        send_err(*old(state), amount, memo@) matches Some(e) ==> (r == Err::<
            TransferAccount,
            RemitEasyError,
        >(e) && *final(state) == *old(state)),
        send_err(*old(state), amount, memo@) is None ==> (r matches Ok(t) && t.sender == sender
            && t.recipient == recipient && t.amount == amount && t.status
            == TransferStatus::Pending && t.created_at == created_at && t.completed_at
            == None::<i64> && t.memo == memo && t.bump == bump && t.wf()),
        send_err(*old(state), amount, memo@) is None ==> final(state).total_transfers == old(state).total_transfers + 1,
        send_err(*old(state), amount, memo@) is None ==> final(state).total_volume == old(state).total_volume + amount,
        send_err(*old(state), amount, memo@) is None ==> (final(state).admin == old(state).admin
            && final(state).fee_percentage == old(state).fee_percentage && final(state).bump
            == old(state).bump),
        old(state).wf() ==> final(state).wf(),
{
    if let Err(e) = validate_amount(amount) {
        return Err(e);
    }
    if let Err(e) = validate_memo(memo.as_str()) {
        return Err(e);
    }
    let new_transfers = match state.total_transfers.checked_add(1) {
        Some(n) => n,
        None => {
            return Err(RemitEasyError::ArithmeticOverflow);
        },
    };
    let new_volume = match state.total_volume.checked_add(amount) {
        Some(v) => v,
        None => {
            return Err(RemitEasyError::ArithmeticOverflow);
        },
    };
    state.total_transfers = new_transfers;
    state.total_volume = new_volume;
    Ok(
        TransferAccount {
            sender,
            recipient,
            amount,
            status: TransferStatus::Pending,
            created_at,
            completed_at: None,
            memo,
            bump,
        },
    )
}

/// Release a pending transfer to its recipient. Only the recipient may call
/// it, only while the record is pending, and only if the escrow holds the
/// full amount. On success the payout partitions the locked amount between
/// the recipient and the fee pool, the record completes and its settlement
/// time is set; everything else about the record is unchanged. On failure
/// the record is untouched.
pub fn receive_transfer(
    transfer: &mut TransferAccount,
    caller: Pubkey,
    state: &ProgramState,
    escrow_balance: u64,
    now: i64,
) -> (r: Result<ReleasePayout, RemitEasyError>)
    requires
        state.wf(),
    ensures
        receive_err(*old(transfer), caller, escrow_balance) matches Some(e) ==> (r == Err::<
            ReleasePayout,
            RemitEasyError,
        >(e) && *final(transfer) == *old(transfer)),
        receive_err(*old(transfer), caller, escrow_balance) is None ==> (r matches Ok(p)
            && p.to_fee_pool == spec_fee(old(transfer).amount, state.fee_percentage)
            && p.to_recipient + p.to_fee_pool == old(transfer).amount),
        receive_err(*old(transfer), caller, escrow_balance) is None ==> (final(transfer).status
            == TransferStatus::Completed && final(transfer).completed_at == Some(now)),
        receive_err(*old(transfer), caller, escrow_balance) is None ==> (final(transfer).sender
            == old(transfer).sender && final(transfer).recipient == old(transfer).recipient
            && final(transfer).amount == old(transfer).amount
            && final(transfer).created_at == old(transfer).created_at
            && final(transfer).memo == old(transfer).memo
            && final(transfer).bump == old(transfer).bump),
        old(transfer).wf() ==> final(transfer).wf(),
{
    if transfer.status != TransferStatus::Pending {
        return Err(RemitEasyError::TransferNotPending);
    }
    if caller != transfer.recipient {
        return Err(RemitEasyError::UnauthorizedReceipt);
    }
    if escrow_balance < transfer.amount {
        return Err(RemitEasyError::InsufficientEscrowBalance);
    }
    let fee = calculate_fee(transfer.amount, state.fee_percentage);
    // Defensive: fee <= amount holds by construction at any valid rate.
    let net = match transfer.amount.checked_sub(fee) {
        Some(n) => n,
        None => {
            return Err(RemitEasyError::ArithmeticOverflow);
        },
    };
    transfer.status = TransferStatus::Completed;
    transfer.completed_at = Some(now);
    Ok(ReleasePayout { to_recipient: net, to_fee_pool: fee })
}

/// Cancel a pending transfer and return the full locked amount, with no fee
/// deducted, to the sender. Only the sender may call it, and only while the
/// record is pending. On success the returned refund equals the locked
/// amount, the record is cancelled and its settlement time is set;
/// everything else about the record is unchanged. On failure the record is
/// untouched.
pub fn cancel_transfer(transfer: &mut TransferAccount, caller: Pubkey, now: i64) -> (r: Result<
    u64,
    RemitEasyError,
>)
    ensures
        cancel_err(*old(transfer), caller) matches Some(e) ==> (r == Err::<u64, RemitEasyError>(e)
            && *final(transfer) == *old(transfer)),
        cancel_err(*old(transfer), caller) is None ==> r == Ok::<u64, RemitEasyError>(old(transfer).amount),
        cancel_err(*old(transfer), caller) is None ==> (final(transfer).status
            == TransferStatus::Cancelled && final(transfer).completed_at == Some(now)),
        cancel_err(*old(transfer), caller) is None ==> (final(transfer).sender
            == old(transfer).sender && final(transfer).recipient == old(transfer).recipient
            && final(transfer).amount == old(transfer).amount
            && final(transfer).created_at == old(transfer).created_at
            && final(transfer).memo == old(transfer).memo
            && final(transfer).bump == old(transfer).bump),
        old(transfer).wf() ==> final(transfer).wf(),
{
    if transfer.status != TransferStatus::Pending {
        return Err(RemitEasyError::TransferNotPending);
    }
    if caller != transfer.sender {
        return Err(RemitEasyError::UnauthorizedCancellation);
    }
    let refund = transfer.amount;
    transfer.status = TransferStatus::Cancelled;
    transfer.completed_at = Some(now);
    Ok(refund)
}

/// An oversized memo is always rejected: for every configuration and every
/// positive amount, a send whose memo exceeds 200 characters fails with
/// `MemoTooLong`, so by the contract of `send_transfer` no record is created
/// and the configuration is unchanged. (With a non-positive amount the send
/// fails too, but with `InvalidAmount`, since the amount is checked first.)
pub proof fn lemma_long_memo_rejected(state: ProgramState, amount: u64, memo: Seq<char>)
    requires
        amount > 0,
        memo.len() > 200,
    ensures
        send_err(state, amount, memo) == Some(RemitEasyError::MemoTooLong),
{
}

/// Settled transfers stay settled: once a record's status has left
/// `Pending`, every receive and every cancel on it, by any caller and at any
/// escrow balance, fails with `TransferNotPending`, so by the contracts of
/// `receive_transfer` and `cancel_transfer` the record never changes again.
pub proof fn lemma_settled_transfer_rejects(
    transfer: TransferAccount,
    caller: Pubkey,
    escrow_balance: u64,
)
    requires
        transfer.status != TransferStatus::Pending,
    ensures
        receive_err(transfer, caller, escrow_balance) == Some(RemitEasyError::TransferNotPending),
        cancel_err(transfer, caller) == Some(RemitEasyError::TransferNotPending),
{
}

/// Authorization: on a pending record, a receive by anyone but the
/// recipient fails with `UnauthorizedReceipt`, and a cancel by anyone but
/// the sender fails with `UnauthorizedCancellation`; by the contracts of
/// `receive_transfer` and `cancel_transfer` the record is left unchanged.
pub proof fn lemma_unauthorized_rejected(
    transfer: TransferAccount,
    caller: Pubkey,
    escrow_balance: u64,
)
    requires
        transfer.status == TransferStatus::Pending,
    ensures
        caller != transfer.recipient ==> receive_err(transfer, caller, escrow_balance) == Some(
            RemitEasyError::UnauthorizedReceipt,
        ),
        caller != transfer.sender ==> cancel_err(transfer, caller) == Some(
            RemitEasyError::UnauthorizedCancellation,
        ),
{
}

} // verus!
