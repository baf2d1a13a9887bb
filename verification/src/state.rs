//! Persisted entities: the global program configuration and the per-transfer
//! escrow record, with the three-valued transfer status.

use vstd::prelude::*;

verus! {

/// A party identity: a 256-bit public key held as four 64-bit words.
#[derive(Clone, Copy, PartialEq, Eq, Structural, Debug)]
pub struct Pubkey {
    pub w0: u64,
    pub w1: u64,
    pub w2: u64,
    pub w3: u64,
}

/// Status of a transfer. Transitions only `Pending -> Completed` and
/// `Pending -> Cancelled`; both targets are terminal.
#[derive(Clone, Copy, PartialEq, Eq, Structural, Debug)]
pub enum TransferStatus {
    /// Transfer is pending, funds locked in escrow.
    Pending,
    /// Transfer completed, funds released to recipient.
    Completed,
    /// Transfer cancelled, funds returned to sender.
    Cancelled,
}

impl Default for TransferStatus {
    /// A freshly created transfer starts out pending.
    fn default() -> (r: Self)
        ensures
            r == TransferStatus::Pending,
    {
        TransferStatus::Pending
    }
}

/// Global program configuration: singleton, created once at initialization
/// and mutated only by successful sends.
#[derive(Clone, PartialEq, Eq, Structural, Debug)]
pub struct ProgramState {
    /// Program administrator public key.
    pub admin: Pubkey,
    /// Fee rate in basis points (100 = 1%); never exceeds 10000.
    pub fee_percentage: u16,
    /// Total number of transfers created; never decremented.
    pub total_transfers: u64,
    /// Total gross volume opened, in lamports; never decremented.
    pub total_volume: u64,
    /// Bump seed for address derivation.
    pub bump: u8,
}

impl ProgramState {
    /// Size of the persisted account in bytes:
    /// 8 (discriminator) + 32 (admin) + 2 (fee) + 8 (transfers) + 8 (volume) + 1 (bump).
    pub const LEN: usize = 8 + 32 + 2 + 8 + 8 + 1;

    /// Configuration invariant: the fee rate stays within 100%.
    pub open spec fn wf(self) -> bool {
        self.fee_percentage <= 10000
    }
}

/// One remittance: the per-transfer escrow record. Created by a send,
/// settled exactly once by a receive or a cancel, never deleted.
#[derive(Clone, Debug)]
pub struct TransferAccount {
    /// Sender's public key; immutable after creation.
    pub sender: Pubkey,
    /// Recipient's public key; immutable after creation.
    pub recipient: Pubkey,
    /// Gross amount locked, in lamports; strictly positive, immutable.
    pub amount: u64,
    /// Current status of the transfer.
    pub status: TransferStatus,
    /// Unix timestamp when the transfer was created; immutable.
    pub created_at: i64,
    /// Unix timestamp of settlement; set exactly once, on leaving `Pending`.
    pub completed_at: Option<i64>,
    /// Free-text annotation, at most 200 characters; immutable.
    pub memo: String,
    /// Bump seed for address derivation.
    pub bump: u8,
}

impl TransferAccount {
    /// Maximum size of the persisted account in bytes:
    /// 8 (discriminator) + 32 (sender) + 32 (recipient) + 8 (amount) +
    /// 1 (status) + 8 (created_at) + 9 (completed_at) + 204 (memo) + 1 (bump).
    pub const LEN: usize = 8 + 32 + 32 + 8 + 1 + 8 + 9 + 204 + 1;

    /// Maximum memo length in characters.
    pub const MAX_MEMO_LENGTH: usize = 200;

    /// Record invariant: a positive amount, a bounded memo, and a settlement
    /// timestamp exactly when the status has left `Pending`.
    pub open spec fn wf(self) -> bool {
        &&& self.amount > 0
        &&& self.memo@.len() <= 200
        &&& (self.completed_at is Some <==> self.status != TransferStatus::Pending)
    }

    /// Whether the transfer is pending.
    pub fn is_pending(&self) -> (r: bool)
        ensures
            r == (self.status == TransferStatus::Pending),
    {
        self.status == TransferStatus::Pending
    }

    /// Whether the transfer has completed.
    pub fn is_completed(&self) -> (r: bool)
        ensures
            r == (self.status == TransferStatus::Completed),
    {
        self.status == TransferStatus::Completed
    }

    /// Whether the transfer has been cancelled.
    pub fn is_cancelled(&self) -> (r: bool)
        ensures
            r == (self.status == TransferStatus::Cancelled),
    {
        self.status == TransferStatus::Cancelled
    }

    /// Transfer duration in seconds, if settled.
    pub fn duration(&self) -> (r: Option<i64>)
        requires
            self.completed_at matches Some(c) ==> i64::MIN <= c - self.created_at <= i64::MAX,
        ensures
            self.completed_at is None ==> r is None,
            self.completed_at matches Some(c) ==> r == Some((c - self.created_at) as i64),
    {
        match self.completed_at {
            Some(completed) => Some(completed - self.created_at),
            None => None,
        }
    }
}

} // verus!
