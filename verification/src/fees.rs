//! Fee arithmetic. The fee rate is fixed at `FEE_BASIS_POINTS` for the whole
//! deployment; the fee is the floor of `amount * rate / 10000`, and a
//! multiplication overflow is reported as a calculation error.

use vstd::prelude::*;

use crate::constants::FEE_BASIS_POINTS;
use crate::error::TrustPayError;

verus! {

/// The fee owed on `amount`: floor of `amount * FEE_BASIS_POINTS / 10000`.
pub open spec fn fee_of(amount: u64) -> int {
    (amount * FEE_BASIS_POINTS) / 10000
}

/// Whether `amount * FEE_BASIS_POINTS` fits in a `u64`, i.e. the fee on
/// `amount` can be computed without overflow.
pub open spec fn fee_computable(amount: u64) -> bool {
    amount * FEE_BASIS_POINTS <= u64::MAX
}

/// Computes the fee on `amount`, detecting multiplication overflow.
pub fn calculate_fee(amount: u64) -> (r: Result<u64, TrustPayError>)
    ensures
        match r {
            Ok(fee) => fee_computable(amount) && fee == fee_of(amount),
            Err(e) => !fee_computable(amount) && e == TrustPayError::CalculationError,
        },
{
    match amount.checked_mul(FEE_BASIS_POINTS as u64) {
        Some(scaled) => Ok(scaled / 10000),
        None => Err(TrustPayError::CalculationError),
    }
}

/// The fee never exceeds the amount it is charged on.
pub proof fn lemma_fee_le_amount(amount: u64)
    ensures
        0 <= fee_of(amount) <= amount,
{
    assert(amount * FEE_BASIS_POINTS == amount * 5) by (nonlinear_arith);
    assert(0 <= amount * 5 / 10000 <= amount) by (nonlinear_arith);
}

} // verus!
