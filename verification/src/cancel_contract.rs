//! Cancellation of a pending agreement by its creator. The creator is
//! inferred from the escrow balance at call time: a funded escrow means the
//! payer created (and funded) the agreement, an empty one means the recipient
//! created it. Only that inferred creator may cancel; the whole balance is
//! refunded to them and the record is destroyed.

use vstd::prelude::*;

use crate::constants::CONTRACT_STATUS_PENDING;
use crate::error::TrustPayError;
use crate::events::ContractCancelledEvent;
use crate::state::TrustPay;

verus! {

/// What a cancellation moves and announces. The host refunds the full escrow
/// balance to the canceller, then destroys the escrow and the record.
pub struct CancelOutcome {
    /// The whole escrow balance, refunded to the canceller.
    pub refund_to_canceller: u64,
    pub event: ContractCancelledEvent,
}

/// The party inferred as the agreement's creator from the escrow balance:
/// funds present mean the payer deposited at creation, none mean the
/// recipient created the agreement and nobody has deposited yet.
pub open spec fn inferred_creator(c: TrustPay, vault_balance: u64) -> u64 {
    if vault_balance > 0 {
        c.payer
    } else {
        c.recipient
    }
}

/// The error a cancellation is refused with, if any: the agreement must still
/// be pending, and only the inferred creator may cancel.
pub open spec fn cancel_check(c: TrustPay, caller: u64, vault_balance: u64) -> Option<
    TrustPayError,
> {
    if c.contract_status != CONTRACT_STATUS_PENDING {
        Some(TrustPayError::ContractNotPending)
    } else if caller != inferred_creator(c, vault_balance) {
        Some(TrustPayError::Unauthorized)
    } else {
        None
    }
}

/// Cancels a pending agreement. The record itself is not written: on success
/// the host refunds the balance and destroys escrow and record; on failure no
/// funds move.
pub fn cancel_contract(
    contract: &TrustPay,
    contract_id: u64,
    caller: u64,
    vault_balance: u64,
    now: i64,
) -> (r: Result<CancelOutcome, TrustPayError>)
    ensures
        match r {
            Ok(outcome) => {
                &&& cancel_check(*contract, caller, vault_balance) is None
                &&& outcome.refund_to_canceller == vault_balance
                &&& outcome.event == (ContractCancelledEvent {
                    trust_pay: contract_id,
                    payer: contract.payer,
                    recipient: contract.recipient,
                    canceller: caller,
                    total_amount: contract.total_contract_amount,
                    refunded_amount: vault_balance,
                    cancelled_at: now,
                })
            },
            Err(e) => cancel_check(*contract, caller, vault_balance) == Some(e),
        },
{
    if contract.contract_status != CONTRACT_STATUS_PENDING {
        return Err(TrustPayError::ContractNotPending);
    }
    let creator = if vault_balance > 0 {
        contract.payer
    } else {
        contract.recipient
    };
    if caller != creator {
        return Err(TrustPayError::Unauthorized);
    }
    Ok(
        CancelOutcome {
            refund_to_canceller: vault_balance,
            event: ContractCancelledEvent {
                trust_pay: contract_id,
                payer: contract.payer,
                recipient: contract.recipient,
                canceller: caller,
                total_amount: contract.total_contract_amount,
                refunded_amount: vault_balance,
                cancelled_at: now,
            },
        },
    )
}

} // verus!
