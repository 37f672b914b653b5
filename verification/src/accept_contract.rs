//! Acceptance of a pending agreement by its payer: the payer funds the escrow
//! with the total amount plus the fee, and the agreement moves to in-progress
//! with its deadline fixed.

use vstd::prelude::*;

use crate::constants::{CONTRACT_STATUS_IN_PROGRESS, CONTRACT_STATUS_PENDING};
use crate::error::TrustPayError;
use crate::events::ContractAcceptedEvent;
use crate::state::TrustPay;

verus! {

/// Ten years in seconds: the farthest a deadline may lie in the future.
pub const MAX_DEADLINE_WINDOW_SECONDS: i64 = 10 * 365 * 24 * 60 * 60;

/// What an acceptance of the agreement moves and announces.
pub struct AcceptOutcome {
    /// Amount the payer deposits into the escrow: the total plus the fee.
    pub deposit: u64,
    pub event: ContractAcceptedEvent,
}

/// The error an acceptance is refused with, if any, in the order the checks
/// run: the caller must be the payer of a pending agreement, the duration must
/// be positive, representable and at most ten years out, and the deposit must
/// be computable.
pub open spec fn accept_check(c: TrustPay, caller: u64, now: i64, duration: u64) -> Option<
    TrustPayError,
> {
    if caller != c.payer {
        Some(TrustPayError::Unauthorized)
    } else if c.contract_status != CONTRACT_STATUS_PENDING {
        Some(TrustPayError::ContractNotPending)
    } else if duration == 0 {
        Some(TrustPayError::InvalidDeadline)
    } else if duration > i64::MAX {
        Some(TrustPayError::CalculationError)
    } else if now + duration > i64::MAX {
        Some(TrustPayError::CalculationError)
    } else if now + MAX_DEADLINE_WINDOW_SECONDS > i64::MAX {
        Some(TrustPayError::CalculationError)
    } else if now + duration > now + MAX_DEADLINE_WINDOW_SECONDS {
        Some(TrustPayError::DeadlineTooFar)
    } else if c.total_contract_amount + c.fee > u64::MAX {
        Some(TrustPayError::CalculationError)
    } else {
        None
    }
}

/// The agreement as it stands after a successful acceptance at `now` with the
/// given duration.
pub open spec fn accepted_contract(c: TrustPay, now: i64, duration: u64) -> TrustPay {
    TrustPay {
        contract_status: CONTRACT_STATUS_IN_PROGRESS,
        deadline: Some((now + duration) as u64),
        acceptance_timestamp: Some(now),
        ..c
    }
}

/// Accepts a pending agreement: only its payer may, only while it is pending,
/// and doing so owes the escrow a deposit of the total amount plus the fee.
/// On failure nothing changes, so a second acceptance of the same agreement
/// fails with `ContractNotPending` and changes nothing.
pub fn accept_contract(
    contract: &mut TrustPay,
    contract_id: u64,
    caller: u64,
    now: i64,
    deadline_duration_seconds: u64,
) -> (r: Result<AcceptOutcome, TrustPayError>)
    requires
        0 <= now,
        old(contract).wf(),
    ensures
        final(contract).wf(),
        match r {
            Ok(outcome) => {
                &&& accept_check(*old(contract), caller, now, deadline_duration_seconds) is None
                &&& *final(contract) == accepted_contract(
                    *old(contract),
                    now,
                    deadline_duration_seconds,
                )
                &&& outcome.deposit == old(contract).total_contract_amount + old(contract).fee
                &&& outcome.event == (ContractAcceptedEvent {
                    trust_pay: contract_id,
                    payer: old(contract).payer,
                    recipient: old(contract).recipient,
                    title: old(contract).title,
                    total_amount: old(contract).total_contract_amount,
                    milestone_count: old(contract).milestones@.len() as u8,
                    accepted_at: now,
                    deadline: (now + deadline_duration_seconds) as i64,
                })
            },
            Err(e) => {
                &&& accept_check(*old(contract), caller, now, deadline_duration_seconds) == Some(e)
                &&& *final(contract) == *old(contract)
            },
        },
{
    if caller != contract.payer {
        return Err(TrustPayError::Unauthorized);
    }
    if contract.contract_status != CONTRACT_STATUS_PENDING {
        return Err(TrustPayError::ContractNotPending);
    }
    if deadline_duration_seconds == 0 {
        return Err(TrustPayError::InvalidDeadline);
    }
    if deadline_duration_seconds > i64::MAX as u64 {
        return Err(TrustPayError::CalculationError);
    }
    let calculated_deadline = match now.checked_add(deadline_duration_seconds as i64) {
        Some(d) => d,
        None => {
            return Err(TrustPayError::CalculationError);
        },
    };
    if !(now < calculated_deadline) {
        return Err(TrustPayError::ContractExpired);
    }
    let max_reasonable_deadline = match now.checked_add(MAX_DEADLINE_WINDOW_SECONDS) {
        Some(d) => d,
        None => {
            return Err(TrustPayError::CalculationError);
        },
    };
    if calculated_deadline > max_reasonable_deadline {
        return Err(TrustPayError::DeadlineTooFar);
    }
    let total_deposit = match contract.total_contract_amount.checked_add(contract.fee) {
        Some(d) => d,
        None => {
            return Err(TrustPayError::CalculationError);
        },
    };
    let event = ContractAcceptedEvent {
        trust_pay: contract_id,
        payer: contract.payer,
        recipient: contract.recipient,
        title: contract.title.clone(),
        total_amount: contract.total_contract_amount,
        milestone_count: contract.milestones.len() as u8,
        accepted_at: now,
        deadline: calculated_deadline,
    };
    contract.deadline = Some(calculated_deadline as u64);
    contract.acceptance_timestamp = Some(now);
    contract.contract_status = CONTRACT_STATUS_IN_PROGRESS;
    Ok(AcceptOutcome { deposit: total_deposit, event })
}

/// Acceptance is not repeatable: once an agreement has been accepted, a second
/// acceptance by the same payer is refused as not pending, whatever the new
/// duration, and (by the contract of `accept_contract`) changes nothing.
pub proof fn lemma_accept_is_not_repeatable(
    c: TrustPay,
    caller: u64,
    now: i64,
    duration: u64,
    now2: i64,
    duration2: u64,
)
    requires
        accept_check(c, caller, now, duration) is None,
    ensures
        accept_check(accepted_contract(c, now, duration), caller, now2, duration2) == Some(
            TrustPayError::ContractNotPending,
        ),
{
}

} // verus!
