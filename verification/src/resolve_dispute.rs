//! Resolution of a dispute by the trusted resolver. The resolver rules for
//! the payer (full refund of amount plus fee, no fee collected), for the
//! recipient (amount paid out, fee collected, counted as an approval), or
//! splits (half to the recipient, the remainder with the fee back to the
//! payer). The milestone then rests at approved or pending, and the
//! agreement's status is recomputed: completed once nothing disputed or
//! awaiting approval remains, else back to in progress.

use vstd::prelude::*;

use crate::constants::{
    CONTRACT_STATUS_COMPLETED, CONTRACT_STATUS_DISPUTED, CONTRACT_STATUS_IN_PROGRESS,
    MILESTONE_STATUS_APPROVED_BY_PAYER, MILESTONE_STATUS_DISPUTED, MILESTONE_STATUS_PENDING,
};
use crate::error::TrustPayError;
use crate::events::{ContractCompletedEvent, DisputeResolvedEvent};
use crate::fees::{calculate_fee, fee_computable, fee_of};
use crate::global_state::{update_on_payment_approval, update_on_trust_pay_close};
use crate::state::{all_milestones_resolved, GlobalState, Milestone, TrustPay};

verus! {

/// Resolution ruling: full refund to the payer.
pub const RESOLUTION_FAVOR_PAYER: u8 = 0;
/// Resolution ruling: pay the recipient.
pub const RESOLUTION_FAVOR_RECIPIENT: u8 = 1;
/// Resolution ruling: split between the parties.
pub const RESOLUTION_SPLIT: u8 = 2;

/// Every milestone but the one at `index` rests settled: approved by the
/// payer or pending. Since resolution leaves the milestone at `index` in one
/// of those two states, this is exactly when the resolution completes the
/// agreement.
pub open spec fn all_others_resolved(ms: Seq<Milestone>, index: int) -> bool {
    forall|j: int|
        0 <= j < ms.len() && j != index ==> (#[trigger] ms[j].status
            == MILESTONE_STATUS_APPROVED_BY_PAYER || ms[j].status == MILESTONE_STATUS_PENDING)
}

/// The error a resolution is refused with, if any, in the order the checks
/// run: the agreement must be disputed, the caller the resolver authority,
/// the ruling one of the three known ones, the index in range, the milestone
/// the disputed one, the fee computable, the escrow able to cover amount plus
/// fee, and the aggregate counters not yet saturated.
pub open spec fn resolve_check(
    c: TrustPay,
    gs: GlobalState,
    caller: u64,
    milestone_index: u8,
    resolution: u8,
    vault_balance: u64,
) -> Option<TrustPayError> {
    let amount = c.milestones@[milestone_index as int].amount;
    if c.contract_status != CONTRACT_STATUS_DISPUTED {
        Some(TrustPayError::ContractNotDisputed)
    } else if caller != gs.authority {
        Some(TrustPayError::UnauthorizedResolver)
    } else if resolution > 2 {
        Some(TrustPayError::InvalidResolution)
    } else if milestone_index >= c.milestones@.len() {
        Some(TrustPayError::InvalidMilestoneIndex)
    } else if c.milestones@[milestone_index as int].status != MILESTONE_STATUS_DISPUTED {
        Some(TrustPayError::MilestoneNotDisputed)
    } else if !fee_computable(amount) {
        Some(TrustPayError::CalculationError)
    } else if vault_balance < amount + fee_of(amount) {
        Some(TrustPayError::CalculationError)
    } else if resolution == RESOLUTION_FAVOR_RECIPIENT && (gs.total_confirmations + 1 > u64::MAX
        || gs.total_volume + amount > u64::MAX) {
        Some(TrustPayError::CalculationError)
    } else if all_others_resolved(c.milestones@, milestone_index as int)
        && gs.total_trust_pay_closed == u64::MAX {
        Some(TrustPayError::CalculationError)
    } else {
        None
    }
}

/// The aggregate state after a resolution: a ruling for the recipient counts
/// like an approval, and a resolution that completes the agreement counts the
/// closure.
pub open spec fn resolve_gs_post(
    gs: GlobalState,
    amount: u64,
    now: i64,
    resolution: u8,
    completed: bool,
) -> GlobalState {
    let paid = if resolution == RESOLUTION_FAVOR_RECIPIENT {
        GlobalState {
            total_confirmations: (gs.total_confirmations + 1) as u64,
            total_volume: (gs.total_volume + amount) as u64,
            high_watermark_volume: if gs.total_volume + amount > gs.high_watermark_volume {
                (gs.total_volume + amount) as u64
            } else {
                gs.high_watermark_volume
            },
            last_volume_update: now,
            ..gs
        }
    } else {
        gs
    };
    if completed {
        GlobalState {
            total_trust_pay_closed: (paid.total_trust_pay_closed + 1) as u64,
            last_volume_update: now,
            ..paid
        }
    } else {
        paid
    }
}

/// What a resolution moves and announces. All transfers leave the escrow.
pub struct ResolveOutcome {
    /// Amount paid to the recipient: the milestone amount on a ruling for the
    /// recipient, half of it on a split, nothing on a refund.
    pub amount_to_recipient: u64,
    /// Amount returned to the payer: amount plus fee on a refund, the
    /// remainder plus fee on a split, nothing on a ruling for the recipient.
    pub amount_to_payer: u64,
    /// The fee, collected only on a ruling for the recipient.
    pub fee_to_destination: u64,
    /// Residual escrow balance swept to the fee destination when the
    /// agreement completes; zero otherwise.
    pub dust_to_destination: u64,
    /// Whether this resolution completed the agreement; if so the host
    /// destroys escrow and record after the transfers.
    pub contract_completed: bool,
    pub event: DisputeResolvedEvent,
    pub completed_event: Option<ContractCompletedEvent>,
}

/// Resolves the dispute on one milestone. Only the resolver authority fixed
/// in the aggregate state may rule. On failure nothing changes, the
/// aggregate state included.
#[verifier::loop_isolation(false)]
pub fn resolve_dispute(
    contract: &mut TrustPay,
    global_state: &mut GlobalState,
    contract_id: u64,
    caller: u64,
    milestone_index: u8,
    resolution: u8,
    resolution_reason: String,
    vault_balance: u64,
    now: i64,
) -> (r: Result<ResolveOutcome, TrustPayError>)
    requires
        0 <= now,
        old(contract).wf(),
    ensures
        final(contract).wf(),
        final(contract).milestones@.len() == old(contract).milestones@.len(),
        forall|i: int|
            0 <= i < old(contract).milestones@.len()
                ==> #[trigger] final(contract).milestones@[i].amount
                == old(contract).milestones@[i].amount,
        r is Ok && final(contract).contract_status == CONTRACT_STATUS_COMPLETED
            ==> all_milestones_resolved(final(contract).milestones@),
        match r {
            Ok(outcome) => {
                let amount = old(contract).milestones@[milestone_index as int].amount;
                let completed = all_others_resolved(
                    old(contract).milestones@,
                    milestone_index as int,
                );
                &&& resolve_check(
                    *old(contract),
                    *old(global_state),
                    caller,
                    milestone_index,
                    resolution,
                    vault_balance,
                ) is None
                &&& outcome.amount_to_recipient == (if resolution == RESOLUTION_FAVOR_RECIPIENT {
                    amount as int
                } else if resolution == RESOLUTION_SPLIT {
                    amount as int / 2
                } else {
                    0
                })
                &&& outcome.amount_to_payer == (if resolution == RESOLUTION_FAVOR_PAYER {
                    amount + fee_of(amount)
                } else if resolution == RESOLUTION_SPLIT {
                    amount + fee_of(amount) - amount as int / 2
                } else {
                    0
                })
                &&& outcome.fee_to_destination == (if resolution == RESOLUTION_FAVOR_RECIPIENT {
                    fee_of(amount)
                } else {
                    0
                })
                &&& outcome.amount_to_recipient + outcome.amount_to_payer
                    + outcome.fee_to_destination == amount + fee_of(amount)
                &&& outcome.dust_to_destination == (if completed {
                    vault_balance - (amount + fee_of(amount))
                } else {
                    0
                })
                &&& outcome.contract_completed == completed
                &&& (completed ==> outcome.amount_to_recipient + outcome.amount_to_payer
                    + outcome.fee_to_destination + outcome.dust_to_destination == vault_balance)
                &&& *final(contract) == (TrustPay {
                    contract_status: if completed {
                        CONTRACT_STATUS_COMPLETED
                    } else {
                        CONTRACT_STATUS_IN_PROGRESS
                    },
                    milestones: final(contract).milestones,
                    ..*old(contract)
                })
                &&& final(contract).milestones@ == old(contract).milestones@.update(
                    milestone_index as int,
                    Milestone {
                        status: if resolution == RESOLUTION_FAVOR_RECIPIENT {
                            MILESTONE_STATUS_APPROVED_BY_PAYER
                        } else {
                            MILESTONE_STATUS_PENDING
                        },
                        approved_at: Some(now),
                        ..old(contract).milestones@[milestone_index as int]
                    },
                )
                &&& *final(global_state) == resolve_gs_post(
                    *old(global_state),
                    amount,
                    now,
                    resolution,
                    completed,
                )
                &&& outcome.event == (DisputeResolvedEvent {
                    trust_pay: contract_id,
                    payer: old(contract).payer,
                    recipient: old(contract).recipient,
                    milestone_index,
                    description: old(contract).milestones@[milestone_index as int].description,
                    amount,
                    fee_amount: (fee_of(amount)) as u64,
                    resolver: caller,
                    resolution,
                    resolution_reason,
                    resolved_at: now,
                })
                &&& outcome.completed_event == (if completed {
                    Some(
                        ContractCompletedEvent {
                            trust_pay: contract_id,
                            payer: old(contract).payer,
                            recipient: old(contract).recipient,
                            total_amount: old(contract).total_contract_amount,
                            completed_at: now,
                        },
                    )
                } else {
                    None
                })
            },
            Err(e) => {
                &&& resolve_check(
                    *old(contract),
                    *old(global_state),
                    caller,
                    milestone_index,
                    resolution,
                    vault_balance,
                ) == Some(e)
                &&& *final(contract) == *old(contract)
                &&& *final(global_state) == *old(global_state)
            },
        },
{
    if contract.contract_status != CONTRACT_STATUS_DISPUTED {
        return Err(TrustPayError::ContractNotDisputed);
    }
    if caller != global_state.authority {
        return Err(TrustPayError::UnauthorizedResolver);
    }
    if resolution > 2 {
        return Err(TrustPayError::InvalidResolution);
    }
    let index = milestone_index as usize;
    if index >= contract.milestones.len() {
        return Err(TrustPayError::InvalidMilestoneIndex);
    }
    if contract.milestones[index].status != MILESTONE_STATUS_DISPUTED {
        return Err(TrustPayError::MilestoneNotDisputed);
    }
    let milestone_amount = contract.milestones[index].amount;
    let milestone_description = contract.milestones[index].description.clone();
    let fee_amount = match calculate_fee(milestone_amount) {
        Ok(f) => f,
        Err(e) => {
            return Err(e);
        },
    };
    let payout = match milestone_amount.checked_add(fee_amount) {
        Some(v) => v,
        None => {
            return Err(TrustPayError::CalculationError);
        },
    };
    if vault_balance < payout {
        return Err(TrustPayError::CalculationError);
    }

    // Whether settling this milestone leaves every milestone settled.
    let n = contract.milestones.len();
    let mut completed = true;
    let mut j: usize = 0;
    while j < n
        invariant
            0 <= j <= n,
            completed ==> forall|k: int|
                0 <= k < j && k != milestone_index as int
                    ==> (#[trigger] contract.milestones@[k].status
                    == MILESTONE_STATUS_APPROVED_BY_PAYER || contract.milestones@[k].status
                    == MILESTONE_STATUS_PENDING),
            !completed ==> !all_others_resolved(contract.milestones@, milestone_index as int),
        decreases n - j,
    {
        if j != index {
            let status = contract.milestones[j].status;
            if status != MILESTONE_STATUS_APPROVED_BY_PAYER && status != MILESTONE_STATUS_PENDING {
                completed = false;
            }
        }
        j = j + 1;
    }
    proof {
        assert(completed == all_others_resolved(contract.milestones@, milestone_index as int));
    }

    if resolution == RESOLUTION_FAVOR_RECIPIENT {
        if global_state.total_confirmations == u64::MAX {
            return Err(TrustPayError::CalculationError);
        }
        if global_state.total_volume > u64::MAX - milestone_amount {
            return Err(TrustPayError::CalculationError);
        }
    }
    if completed && global_state.total_trust_pay_closed == u64::MAX {
        return Err(TrustPayError::CalculationError);
    }

    // Stage the transfers for the chosen ruling.
    let split_amount = milestone_amount / 2;
    let amount_to_recipient: u64;
    let amount_to_payer: u64;
    let fee_to_destination: u64;
    if resolution == RESOLUTION_FAVOR_PAYER {
        amount_to_recipient = 0;
        amount_to_payer = payout;
        fee_to_destination = 0;
    } else if resolution == RESOLUTION_FAVOR_RECIPIENT {
        amount_to_recipient = milestone_amount;
        amount_to_payer = 0;
        fee_to_destination = fee_amount;
        // The counters were bounds-checked above, so this cannot fail here.
    match update_on_payment_approval(global_state, milestone_amount, now) {
            Ok(()) => {},
            Err(e) => {
                return Err(e);
            },
        }
    } else {
        amount_to_recipient = split_amount;
        amount_to_payer = payout - split_amount;
        fee_to_destination = 0;
    }

    let ghost old_milestones = contract.milestones@;
    let milestone = &mut contract.milestones[index];
    milestone.status = if resolution == RESOLUTION_FAVOR_RECIPIENT {
        MILESTONE_STATUS_APPROVED_BY_PAYER
    } else {
        MILESTONE_STATUS_PENDING
    };
    milestone.approved_at = Some(now);
    proof {
        crate::state::lemma_milestone_sum_update_same_amount(
            old_milestones,
            index as int,
            contract.milestones@[index as int],
        );
    }

    let mut dust: u64 = 0;
    let mut completed_event: Option<ContractCompletedEvent> = None;
    if completed {
        contract.contract_status = CONTRACT_STATUS_COMPLETED;
        dust = vault_balance - payout;
        // The closure counter was bounds-checked above, so this cannot fail here.
        match update_on_trust_pay_close(global_state, now) {
            Ok(()) => {},
            Err(e) => {
                return Err(e);
            },
        }
        completed_event = Some(
            ContractCompletedEvent {
                trust_pay: contract_id,
                payer: contract.payer,
                recipient: contract.recipient,
                total_amount: contract.total_contract_amount,
                completed_at: now,
            },
        );
    } else {
        contract.contract_status = CONTRACT_STATUS_IN_PROGRESS;
    }

    proof {
        let ms = contract.milestones@;
        assert forall|i: int|
            0 <= i < ms.len() implies #[trigger] ms[i].status != MILESTONE_STATUS_DISPUTED by {
            if i != index as int {
                assert(ms[i] == old_milestones[i]);
            }
        };
    }

    Ok(
        ResolveOutcome {
            amount_to_recipient,
            amount_to_payer,
            fee_to_destination,
            dust_to_destination: dust,
            contract_completed: completed,
            event: DisputeResolvedEvent {
                trust_pay: contract_id,
                payer: contract.payer,
                recipient: contract.recipient,
                milestone_index,
                description: milestone_description,
                amount: milestone_amount,
                fee_amount,
                resolver: caller,
                resolution,
                resolution_reason,
                resolved_at: now,
            },
            completed_event,
        },
    )
}

} // verus!
