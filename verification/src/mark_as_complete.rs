//! Completion of one milestone by the recipient: valid only while the
//! agreement is in progress and before its deadline; the targeted milestone
//! must still be pending.

use vstd::prelude::*;

use crate::constants::{
    CONTRACT_STATUS_IN_PROGRESS, MILESTONE_STATUS_COMPLETED_BY_SP, MILESTONE_STATUS_PENDING,
};
use crate::error::TrustPayError;
use crate::events::MilestoneCompletedEvent;
use crate::state::{Milestone, TrustPay};

verus! {

/// The error a completion is refused with, if any, in the order the checks
/// run: the caller must be the recipient of an in-progress agreement, the
/// index in range, the deadline set and not yet passed, and the milestone
/// still pending.
pub open spec fn mark_complete_check(c: TrustPay, caller: u64, milestone_index: u8, now: i64) -> Option<
    TrustPayError,
> {
    if caller != c.recipient {
        Some(TrustPayError::Unauthorized)
    } else if c.contract_status != CONTRACT_STATUS_IN_PROGRESS {
        Some(TrustPayError::ContractNotInProgress)
    } else if milestone_index >= c.milestones@.len() {
        Some(TrustPayError::InvalidMilestoneIndex)
    } else if c.deadline is None {
        Some(TrustPayError::ContractNotAccepted)
    } else if c.deadline->Some_0 <= now as u64 {
        Some(TrustPayError::ContractExpired)
    } else if c.milestones@[milestone_index as int].status != MILESTONE_STATUS_PENDING {
        Some(TrustPayError::MilestoneNotPending)
    } else {
        None
    }
}

/// Marks one milestone as completed by the service provider. The agreement's
/// status does not change; only the milestone moves, to completed-by-provider
/// with its completion time recorded.
pub fn mark_milestone_complete(
    contract: &mut TrustPay,
    contract_id: u64,
    caller: u64,
    milestone_index: u8,
    now: i64,
) -> (r: Result<MilestoneCompletedEvent, TrustPayError>)
    requires
        0 <= now,
        old(contract).wf(),
    ensures
        final(contract).wf(),
        final(contract).milestones@.len() == old(contract).milestones@.len(),
        forall|i: int|
            0 <= i < old(contract).milestones@.len()
                ==> #[trigger] final(contract).milestones@[i].amount
                == old(contract).milestones@[i].amount,
        match r {
            Ok(event) => {
                &&& mark_complete_check(*old(contract), caller, milestone_index, now) is None
                &&& *final(contract) == (TrustPay {
                    milestones: final(contract).milestones,
                    ..*old(contract)
                })
                &&& final(contract).milestones@ == old(contract).milestones@.update(
                    milestone_index as int,
                    Milestone {
                        status: MILESTONE_STATUS_COMPLETED_BY_SP,
                        completed_at: Some(now),
                        ..old(contract).milestones@[milestone_index as int]
                    },
                )
                &&& event == (MilestoneCompletedEvent {
                    trust_pay: contract_id,
                    payer: old(contract).payer,
                    recipient: caller,
                    milestone_index,
                    description: old(contract).milestones@[milestone_index as int].description,
                    amount: old(contract).milestones@[milestone_index as int].amount,
                    completed_at: now,
                })
            },
            Err(e) => {
                &&& mark_complete_check(*old(contract), caller, milestone_index, now) == Some(e)
                &&& *final(contract) == *old(contract)
            },
        },
{
    if caller != contract.recipient {
        return Err(TrustPayError::Unauthorized);
    }
    if contract.contract_status != CONTRACT_STATUS_IN_PROGRESS {
        return Err(TrustPayError::ContractNotInProgress);
    }
    let index = milestone_index as usize;
    if index >= contract.milestones.len() {
        return Err(TrustPayError::InvalidMilestoneIndex);
    }
    let description = contract.milestones[index].description.clone();
    let amount = contract.milestones[index].amount;
    match contract.deadline {
        Some(deadline) => {
            if !((now as u64) < deadline) {
                return Err(TrustPayError::ContractExpired);
            }
        },
        None => {
            return Err(TrustPayError::ContractNotAccepted);
        },
    }
    if contract.milestones[index].status != MILESTONE_STATUS_PENDING {
        return Err(TrustPayError::MilestoneNotPending);
    }
    let ghost old_milestones = contract.milestones@;
    let milestone = &mut contract.milestones[index];
    milestone.status = MILESTONE_STATUS_COMPLETED_BY_SP;
    milestone.completed_at = Some(now);
    proof {
        crate::state::lemma_milestone_sum_update_same_amount(
            old_milestones,
            index as int,
            contract.milestones@[index as int],
        );
    }
    Ok(
        MilestoneCompletedEvent {
            trust_pay: contract_id,
            payer: contract.payer,
            recipient: caller,
            milestone_index,
            description,
            amount,
            completed_at: now,
        },
    )
}

} // verus!
