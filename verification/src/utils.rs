//! Fee calculator and validation rules: pure, side-effect-free, called
//! before any state mutation by every operation that takes the input.

use vstd::prelude::*;
use vstd::string::StrSliceExecFns;

use crate::errors::RemitEasyError;

verus! {

/// The protocol fee on `amount` at `fee_percentage` basis points:
/// `floor(amount * fee_percentage / 10000)`.
pub open spec fn spec_fee(amount: u64, fee_percentage: u16) -> int {
    (amount * fee_percentage) / 10000
}

/// Calculate the fee on `amount` at `fee_percentage` basis points. The
/// multiplication is widened to 128 bits, so it cannot overflow for any
/// 64-bit amount and any valid rate.
pub fn calculate_fee(amount: u64, fee_percentage: u16) -> (fee: u64)
    requires
        fee_percentage <= 10000,
    ensures
        fee == spec_fee(amount, fee_percentage),
        fee <= amount,
{
    proof {
        lemma_fee_le_amount(amount, fee_percentage);
    }
    (((amount as u128) * (fee_percentage as u128)) / 10000) as u64
}

/// At a valid rate the fee never exceeds the amount, so the net amount
/// `amount - fee` is well defined.
pub proof fn lemma_fee_le_amount(amount: u64, fee_percentage: u16)
    requires
        fee_percentage <= 10000,
    ensures
        0 <= spec_fee(amount, fee_percentage) <= amount,
{
    assert(0 <= (amount * fee_percentage) / 10000 <= amount) by (nonlinear_arith)
        requires
            fee_percentage <= 10000,
    ;
}

/// The fee and the net amount partition the gross amount: for every amount
/// and every valid rate, `fee + net == amount`, with
/// `fee == floor(amount * rate / 10000)`.
pub proof fn lemma_fee_plus_net_is_amount(amount: u64, fee_percentage: u16)
    requires
        fee_percentage <= 10000,
    ensures
        spec_fee(amount, fee_percentage) == (amount * fee_percentage) / 10000,
        spec_fee(amount, fee_percentage) + (amount - spec_fee(amount, fee_percentage)) == amount,
{
    lemma_fee_le_amount(amount, fee_percentage);
}

/// Validate that an amount is strictly positive.
pub fn validate_amount(amount: u64) -> (r: Result<(), RemitEasyError>)
    ensures
        r == (if amount > 0 {
            Ok::<(), RemitEasyError>(())
        } else {
            Err::<(), RemitEasyError>(RemitEasyError::InvalidAmount)
        }),
{
    if amount > 0 {
        Ok(())
    } else {
        Err(RemitEasyError::InvalidAmount)
    }
}

/// Validate that a memo holds at most 200 characters.
pub fn validate_memo(memo: &str) -> (r: Result<(), RemitEasyError>)
    ensures
        r == (if memo@.len() <= 200 {
            Ok::<(), RemitEasyError>(())
        } else {
            Err::<(), RemitEasyError>(RemitEasyError::MemoTooLong)
        }),
{
    if memo.unicode_len() <= 200 {
        Ok(())
    } else {
        Err(RemitEasyError::MemoTooLong)
    }
}

/// Validate that a fee rate stays within 10000 basis points (100%).
pub fn validate_fee_rate(fee_rate_bps: u16) -> (r: Result<(), RemitEasyError>)
    ensures
        r == (if fee_rate_bps <= 10000 {
            Ok::<(), RemitEasyError>(())
        } else {
            Err::<(), RemitEasyError>(RemitEasyError::InvalidFeePercentage)
        }),
{
    if fee_rate_bps <= 10000 {
        Ok(())
    } else {
        Err(RemitEasyError::InvalidFeePercentage)
    }
}

} // verus!
