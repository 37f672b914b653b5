//! Raising a dispute over one completed milestone. The whole agreement
//! freezes in disputed status, so no milestone can move until the resolver
//! rules; the milestone records the reason and a deterministic dispute id.

use vstd::prelude::*;

use vstd::string::StrSliceExecFns;

use crate::constants::{
    CONTRACT_STATUS_DISPUTED, CONTRACT_STATUS_IN_PROGRESS, MILESTONE_STATUS_COMPLETED_BY_SP,
    MILESTONE_STATUS_DISPUTED,
};
use crate::dispute_id::{dispute_id_of, generate_dispute_id};
use crate::error::TrustPayError;
use crate::events::DisputeCreatedEvent;
use crate::state::{GlobalState, Milestone, TrustPay};

verus! {

/// The error a dispute is refused with, if any, in the order the checks run:
/// the agreement must be in progress, the reason 10 to 500 characters, the
/// index in range, the caller one of the two parties, the milestone completed
/// by the provider and not yet ruled on, and the dispute counter not yet
/// saturated.
pub open spec fn dispute_check(
    c: TrustPay,
    gs: GlobalState,
    caller: u64,
    milestone_index: u8,
    reason: Seq<char>,
) -> Option<TrustPayError> {
    if c.contract_status != CONTRACT_STATUS_IN_PROGRESS {
        Some(TrustPayError::ContractNotInProgress)
    } else if reason.len() < 10 || reason.len() > 500 {
        Some(TrustPayError::InvalidDisputeReason)
    } else if milestone_index >= c.milestones@.len() {
        Some(TrustPayError::InvalidMilestoneIndex)
    } else if caller != c.payer && caller != c.recipient {
        Some(TrustPayError::UnauthorizedDisputer)
    } else if c.milestones@[milestone_index as int].status != MILESTONE_STATUS_COMPLETED_BY_SP {
        Some(TrustPayError::MilestoneNotDisputable)
    } else if gs.total_disputes == u64::MAX {
        Some(TrustPayError::CalculationError)
    } else {
        None
    }
}

/// Disputes one milestone: the milestone takes the reason and a dispute id
/// derived from (contract, milestone, now), the whole agreement moves to
/// disputed, and the global dispute counter grows by one. On failure nothing
/// changes.
pub fn dispute_contract(
    contract: &mut TrustPay,
    global_state: &mut GlobalState,
    contract_id: u64,
    caller: u64,
    milestone_index: u8,
    dispute_reason: String,
    now: i64,
) -> (r: Result<DisputeCreatedEvent, TrustPayError>)
    requires
        0 <= now,
        old(contract).wf(),
    ensures
        final(contract).wf(),
        final(contract).milestones@.len() == old(contract).milestones@.len(),
        forall|i: int|
            0 <= i < old(contract).milestones@.len()
                ==> #[trigger] final(contract).milestones@[i].amount
                == old(contract).milestones@[i].amount,
        match r {
            Ok(event) => {
                &&& dispute_check(
                    *old(contract),
                    *old(global_state),
                    caller,
                    milestone_index,
                    dispute_reason@,
                ) is None
                &&& *final(contract) == (TrustPay {
                    contract_status: CONTRACT_STATUS_DISPUTED,
                    milestones: final(contract).milestones,
                    ..*old(contract)
                })
                &&& final(contract).milestones@ == old(contract).milestones@.update(
                    milestone_index as int,
                    Milestone {
                        status: MILESTONE_STATUS_DISPUTED,
                        dispute_reason: Some(dispute_reason),
                        dispute_id: final(contract).milestones@[milestone_index as int].dispute_id,
                        ..old(contract).milestones@[milestone_index as int]
                    },
                )
                &&& final(contract).milestones@[milestone_index as int].dispute_id matches Some(id)
                    && id@ == dispute_id_of(contract_id, milestone_index, now)
                &&& *final(global_state) == (GlobalState {
                    total_disputes: (old(global_state).total_disputes + 1) as u64,
                    ..*old(global_state)
                })
                &&& event == (DisputeCreatedEvent {
                    trust_pay: contract_id,
                    payer: old(contract).payer,
                    recipient: old(contract).recipient,
                    milestone_index,
                    description: old(contract).milestones@[milestone_index as int].description,
                    amount: old(contract).milestones@[milestone_index as int].amount,
                    disputer: caller,
                    reason: dispute_reason,
                    dispute_id: event.dispute_id,
                    disputed_at: now,
                })
                &&& event.dispute_id@ == dispute_id_of(contract_id, milestone_index, now)
            },
            Err(e) => {
                &&& dispute_check(
                    *old(contract),
                    *old(global_state),
                    caller,
                    milestone_index,
                    dispute_reason@,
                ) == Some(e)
                &&& *final(contract) == *old(contract)
                &&& *final(global_state) == *old(global_state)
            },
        },
{
    if contract.contract_status != CONTRACT_STATUS_IN_PROGRESS {
        return Err(TrustPayError::ContractNotInProgress);
    }
    let reason_len = dispute_reason.as_str().unicode_len();
    if reason_len < 10 || reason_len > 500 {
        return Err(TrustPayError::InvalidDisputeReason);
    }
    let index = milestone_index as usize;
    if index >= contract.milestones.len() {
        return Err(TrustPayError::InvalidMilestoneIndex);
    }
    if caller != contract.payer && caller != contract.recipient {
        return Err(TrustPayError::UnauthorizedDisputer);
    }
    if contract.milestones[index].status != MILESTONE_STATUS_COMPLETED_BY_SP {
        return Err(TrustPayError::MilestoneNotDisputable);
    }
    let total_disputes = match global_state.total_disputes.checked_add(1) {
        Some(v) => v,
        None => {
            return Err(TrustPayError::CalculationError);
        },
    };
    let dispute_id = generate_dispute_id(contract_id, milestone_index, now);
    let description = contract.milestones[index].description.clone();
    let amount = contract.milestones[index].amount;
    let event = DisputeCreatedEvent {
        trust_pay: contract_id,
        payer: contract.payer,
        recipient: contract.recipient,
        milestone_index,
        description,
        amount,
        disputer: caller,
        reason: dispute_reason.clone(),
        dispute_id: dispute_id.clone(),
        disputed_at: now,
    };
    let ghost old_milestones = contract.milestones@;
    let milestone = &mut contract.milestones[index];
    milestone.status = MILESTONE_STATUS_DISPUTED;
    milestone.dispute_reason = Some(dispute_reason);
    milestone.dispute_id = Some(dispute_id);
    contract.contract_status = CONTRACT_STATUS_DISPUTED;
    global_state.total_disputes = total_disputes;
    proof {
        crate::state::lemma_milestone_sum_update_same_amount(
            old_milestones,
            index as int,
            contract.milestones@[index as int],
        );
        let ms = contract.milestones@;
        assert(ms[index as int].status == MILESTONE_STATUS_DISPUTED);
        assert(crate::state::any_milestone_disputed(ms));
        assert forall|i: int|
            0 <= i < ms.len() && #[trigger] ms[i].status == MILESTONE_STATUS_DISPUTED implies i
            == index as int by {
            if i != index as int {
                assert(ms[i] == old_milestones[i]);
                assert(!crate::state::any_milestone_disputed(old_milestones));
            }
        };
    }
    Ok(event)
}

} // verus!
