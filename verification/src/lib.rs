//! Escrow-mediated value-transfer ledger.
//!
//! A sender locks funds under program custody; the funds are later either
//! released to a designated recipient (minus an optional protocol fee) or
//! returned to the sender. The crate holds the accounting core: fee
//! computation, validation rules, the per-transfer state machine, and the
//! global configuration record with its running totals.

pub mod errors;
pub mod lifecycle;
pub mod state;
pub mod utils;
