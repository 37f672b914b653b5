//! Declination of a pending agreement by its payer: whatever the escrow
//! holds is refunded to the recipient, and escrow and record are destroyed.

use vstd::prelude::*;

use crate::constants::CONTRACT_STATUS_PENDING;
use crate::error::TrustPayError;
use crate::events::ContractDeclinedEvent;
use crate::state::TrustPay;

verus! {

/// What a declination moves and announces. The host refunds the full escrow
/// balance to the recipient, then destroys the escrow and the record.
pub struct DeclineOutcome {
    /// The whole escrow balance, refunded to the recipient.
    pub refund_to_recipient: u64,
    pub event: ContractDeclinedEvent,
}

/// The error a declination is refused with, if any: only the payer may
/// decline, and only while the agreement is pending.
pub open spec fn decline_check(c: TrustPay, caller: u64) -> Option<TrustPayError> {
    if caller != c.payer {
        Some(TrustPayError::Unauthorized)
    } else if c.contract_status != CONTRACT_STATUS_PENDING {
        Some(TrustPayError::ContractNotPending)
    } else {
        None
    }
}

/// Declines a pending agreement. The record itself is not written: on success
/// the host refunds the balance to the recipient and destroys escrow and
/// record; on failure no funds move.
pub fn decline_contract(
    contract: &TrustPay,
    contract_id: u64,
    caller: u64,
    vault_balance: u64,
    now: i64,
) -> (r: Result<DeclineOutcome, TrustPayError>)
    ensures
        match r {
            Ok(outcome) => {
                &&& decline_check(*contract, caller) is None
                &&& outcome.refund_to_recipient == vault_balance
                &&& outcome.event == (ContractDeclinedEvent {
                    trust_pay: contract_id,
                    payer: contract.payer,
                    recipient: contract.recipient,
                    total_amount: contract.total_contract_amount,
                    refunded_amount: vault_balance,
                    declined_at: now,
                })
            },
            Err(e) => decline_check(*contract, caller) == Some(e),
        },
{
    if caller != contract.payer {
        return Err(TrustPayError::Unauthorized);
    }
    if contract.contract_status != CONTRACT_STATUS_PENDING {
        return Err(TrustPayError::ContractNotPending);
    }
    Ok(
        DeclineOutcome {
            refund_to_recipient: vault_balance,
            event: ContractDeclinedEvent {
                trust_pay: contract_id,
                payer: contract.payer,
                recipient: contract.recipient,
                total_amount: contract.total_contract_amount,
                refunded_amount: vault_balance,
                declined_at: now,
            },
        },
    )
}

} // verus!
