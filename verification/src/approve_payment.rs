//! Approval of one completed milestone by the payer: the milestone amount
//! goes to the recipient and the fee on it to the fee destination, both out
//! of the escrow. When the last milestone is approved the agreement
//! completes: residual escrow dust is swept to the fee destination, the
//! record is destroyed, and the closure is counted.

use vstd::prelude::*;

use crate::constants::{
    CONTRACT_STATUS_COMPLETED, CONTRACT_STATUS_IN_PROGRESS, MILESTONE_STATUS_APPROVED_BY_PAYER,
    MILESTONE_STATUS_COMPLETED_BY_SP,
};
use crate::error::TrustPayError;
use crate::events::{ContractCompletedEvent, MilestoneApprovedEvent};
use crate::fees::{calculate_fee, fee_computable, fee_of};
use crate::global_state::{update_on_payment_approval, update_on_trust_pay_close};
use crate::state::{all_milestones_approved, GlobalState, Milestone, TrustPay};

verus! {

/// Every milestone but the one at `index` has been approved by the payer, so
/// approving that one completes the agreement.
pub open spec fn all_others_approved(ms: Seq<Milestone>, index: int) -> bool {
    forall|j: int|
        0 <= j < ms.len() && j != index ==> #[trigger] ms[j].status
            == MILESTONE_STATUS_APPROVED_BY_PAYER
}

/// The error an approval is refused with, if any, in the order the checks
/// run: the caller must be the payer of an in-progress agreement, the index
/// in range, the milestone completed by the provider, the fee computable, the
/// escrow able to cover amount plus fee, and the aggregate counters not yet
/// saturated.
pub open spec fn approve_check(
    c: TrustPay,
    gs: GlobalState,
    caller: u64,
    milestone_index: u8,
    vault_balance: u64,
) -> Option<TrustPayError> {
    let amount = c.milestones@[milestone_index as int].amount;
    if caller != c.payer {
        Some(TrustPayError::Unauthorized)
    } else if c.contract_status != CONTRACT_STATUS_IN_PROGRESS {
        Some(TrustPayError::ContractNotInProgress)
    } else if milestone_index >= c.milestones@.len() {
        Some(TrustPayError::InvalidMilestoneIndex)
    } else if c.milestones@[milestone_index as int].status != MILESTONE_STATUS_COMPLETED_BY_SP {
        Some(TrustPayError::MilestoneNotCompleted)
    } else if !fee_computable(amount) {
        Some(TrustPayError::CalculationError)
    } else if vault_balance < amount + fee_of(amount) {
        Some(TrustPayError::CalculationError)
    } else if gs.total_confirmations + 1 > u64::MAX || gs.total_volume + amount > u64::MAX {
        Some(TrustPayError::CalculationError)
    } else if all_others_approved(c.milestones@, milestone_index as int)
        && gs.total_trust_pay_closed == u64::MAX {
        Some(TrustPayError::CalculationError)
    } else {
        None
    }
}

/// The aggregate state after an approval: one confirmation and the milestone
/// amount of volume counted, the high watermark caught up, and the closure
/// counted too if the agreement completed.
pub open spec fn approve_gs_post(gs: GlobalState, amount: u64, now: i64, completed: bool) -> GlobalState {
    let paid = GlobalState {
        total_confirmations: (gs.total_confirmations + 1) as u64,
        total_volume: (gs.total_volume + amount) as u64,
        high_watermark_volume: if gs.total_volume + amount > gs.high_watermark_volume {
            (gs.total_volume + amount) as u64
        } else {
            gs.high_watermark_volume
        },
        last_volume_update: now,
        ..gs
    };
    if completed {
        GlobalState { total_trust_pay_closed: (paid.total_trust_pay_closed + 1) as u64, ..paid }
    } else {
        paid
    }
}

/// What an approval moves and announces. All transfers leave the escrow.
pub struct ApproveOutcome {
    /// The milestone amount, paid to the recipient.
    pub amount_to_recipient: u64,
    /// The fee on the milestone amount, paid to the fee destination.
    pub fee_to_destination: u64,
    /// Residual escrow balance swept to the fee destination when the
    /// agreement completes; zero otherwise.
    pub dust_to_destination: u64,
    /// Whether this approval completed the agreement; if so the host
    /// destroys escrow and record after the transfers.
    pub contract_completed: bool,
    pub event: MilestoneApprovedEvent,
    pub completed_event: Option<ContractCompletedEvent>,
}

/// Approves one milestone for payment. The milestone must be exactly
/// completed-by-provider; otherwise the call fails with a state error and no
/// transfer happens. On failure nothing changes, the aggregate state
/// included.
#[verifier::loop_isolation(false)]
pub fn approve_milestone_payment(
    contract: &mut TrustPay,
    global_state: &mut GlobalState,
    contract_id: u64,
    caller: u64,
    milestone_index: u8,
    vault_balance: u64,
    now: i64,
) -> (r: Result<ApproveOutcome, TrustPayError>)
    requires
        0 <= now,
        old(contract).wf(),
    ensures
        final(contract).wf(),
        final(contract).milestones@.len() == old(contract).milestones@.len(),
        forall|i: int|
            0 <= i < old(contract).milestones@.len()
                ==> #[trigger] final(contract).milestones@[i].amount
                == old(contract).milestones@[i].amount,
        r is Ok && final(contract).contract_status == CONTRACT_STATUS_COMPLETED
            ==> all_milestones_approved(final(contract).milestones@),
        match r {
            Ok(outcome) => {
                let amount = old(contract).milestones@[milestone_index as int].amount;
                let completed = all_others_approved(
                    old(contract).milestones@,
                    milestone_index as int,
                );
                &&& approve_check(
                    *old(contract),
                    *old(global_state),
                    caller,
                    milestone_index,
                    vault_balance,
                ) is None
                &&& outcome.amount_to_recipient == amount
                &&& outcome.fee_to_destination == fee_of(amount)
                &&& outcome.dust_to_destination == (if completed {
                    vault_balance - (amount + fee_of(amount))
                } else {
                    0
                })
                &&& outcome.contract_completed == completed
                &&& (completed ==> outcome.amount_to_recipient + outcome.fee_to_destination
                    + outcome.dust_to_destination == vault_balance)
                &&& *final(contract) == (TrustPay {
                    contract_status: if completed {
                        CONTRACT_STATUS_COMPLETED
                    } else {
                        CONTRACT_STATUS_IN_PROGRESS
                    },
                    milestones: final(contract).milestones,
                    ..*old(contract)
                })
                &&& final(contract).milestones@ == old(contract).milestones@.update(
                    milestone_index as int,
                    Milestone {
                        status: MILESTONE_STATUS_APPROVED_BY_PAYER,
                        approved_at: Some(now),
                        ..old(contract).milestones@[milestone_index as int]
                    },
                )
                &&& *final(global_state) == approve_gs_post(
                    *old(global_state),
                    amount,
                    now,
                    completed,
                )
                &&& outcome.event == (MilestoneApprovedEvent {
                    trust_pay: contract_id,
                    payer: caller,
                    recipient: old(contract).recipient,
                    milestone_index,
                    description: old(contract).milestones@[milestone_index as int].description,
                    amount,
                    fee_amount: (fee_of(amount)) as u64,
                    approved_at: now,
                })
                &&& outcome.completed_event == (if completed {
                    Some(
                        ContractCompletedEvent {
                            trust_pay: contract_id,
                            payer: caller,
                            recipient: old(contract).recipient,
                            total_amount: old(contract).total_contract_amount,
                            completed_at: now,
                        },
                    )
                } else {
                    None
                })
            },
            Err(e) => {
                &&& approve_check(
                    *old(contract),
                    *old(global_state),
                    caller,
                    milestone_index,
                    vault_balance,
                ) == Some(e)
                &&& *final(contract) == *old(contract)
                &&& *final(global_state) == *old(global_state)
            },
        },
{
    if caller != contract.payer {
        return Err(TrustPayError::Unauthorized);
    }
    if contract.contract_status != CONTRACT_STATUS_IN_PROGRESS {
        return Err(TrustPayError::ContractNotInProgress);
    }
    let index = milestone_index as usize;
    if index >= contract.milestones.len() {
        return Err(TrustPayError::InvalidMilestoneIndex);
    }
    if contract.milestones[index].status != MILESTONE_STATUS_COMPLETED_BY_SP {
        return Err(TrustPayError::MilestoneNotCompleted);
    }
    let milestone_amount = contract.milestones[index].amount;
    let milestone_description = contract.milestones[index].description.clone();
    let fee_amount = match calculate_fee(milestone_amount) {
        Ok(f) => f,
        Err(e) => {
            return Err(e);
        },
    };
    let payout = match milestone_amount.checked_add(fee_amount) {
        Some(v) => v,
        None => {
            return Err(TrustPayError::CalculationError);
        },
    };
    if vault_balance < payout {
        return Err(TrustPayError::CalculationError);
    }

    // Whether approving this milestone settles the last open one.
    let n = contract.milestones.len();
    let mut completed = true;
    let mut j: usize = 0;
    while j < n
        invariant
            0 <= j <= n,
            completed ==> forall|k: int|
                0 <= k < j && k != milestone_index as int
                    ==> #[trigger] contract.milestones@[k].status
                    == MILESTONE_STATUS_APPROVED_BY_PAYER,
            !completed ==> !all_others_approved(contract.milestones@, milestone_index as int),
        decreases n - j,
    {
        if j != index && contract.milestones[j].status != MILESTONE_STATUS_APPROVED_BY_PAYER {
            completed = false;
        }
        j = j + 1;
    }
    proof {
        assert(completed == all_others_approved(contract.milestones@, milestone_index as int));
    }

    if global_state.total_confirmations == u64::MAX {
        return Err(TrustPayError::CalculationError);
    }
    if global_state.total_volume > u64::MAX - milestone_amount {
        return Err(TrustPayError::CalculationError);
    }
    if completed && global_state.total_trust_pay_closed == u64::MAX {
        return Err(TrustPayError::CalculationError);
    }

    // The counters were bounds-checked above, so this cannot fail here.
    match update_on_payment_approval(global_state, milestone_amount, now) {
        Ok(()) => {},
        Err(e) => {
            return Err(e);
        },
    }

    let ghost old_milestones = contract.milestones@;
    let milestone = &mut contract.milestones[index];
    milestone.status = MILESTONE_STATUS_APPROVED_BY_PAYER;
    milestone.approved_at = Some(now);
    proof {
        crate::state::lemma_milestone_sum_update_same_amount(
            old_milestones,
            index as int,
            contract.milestones@[index as int],
        );
    }

    let mut dust: u64 = 0;
    let mut completed_event: Option<ContractCompletedEvent> = None;
    if completed {
        contract.contract_status = CONTRACT_STATUS_COMPLETED;
        dust = vault_balance - payout;
        // The closure counter was bounds-checked above, so this cannot fail here.
        match update_on_trust_pay_close(global_state, now) {
            Ok(()) => {},
            Err(e) => {
                return Err(e);
            },
        }
        completed_event = Some(
            ContractCompletedEvent {
                trust_pay: contract_id,
                payer: caller,
                recipient: contract.recipient,
                total_amount: contract.total_contract_amount,
                completed_at: now,
            },
        );
    }

    Ok(
        ApproveOutcome {
            amount_to_recipient: milestone_amount,
            fee_to_destination: fee_amount,
            dust_to_destination: dust,
            contract_completed: completed,
            event: MilestoneApprovedEvent {
                trust_pay: contract_id,
                payer: caller,
                recipient: contract.recipient,
                milestone_index,
                description: milestone_description,
                amount: milestone_amount,
                fee_amount,
                approved_at: now,
            },
            completed_event,
        },
    )
}

} // verus!
