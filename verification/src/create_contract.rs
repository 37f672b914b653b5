//! Creation of an escrow agreement. The creator declares a role; payer and
//! recipient are resolved from it. A milestone agreement takes 1 to 10
//! milestone inputs whose amounts must sum exactly to the total; a one-time
//! agreement takes none and a single implicit milestone covering the total is
//! synthesized. If the creator is the payer the escrow is funded at once and
//! the agreement starts in progress; otherwise it waits pending acceptance.

use vstd::prelude::*;

use vstd::string::{StrSliceExecFns, StringExecFns};

use crate::constants::{
    CONTRACT_STATUS_IN_PROGRESS, CONTRACT_STATUS_PENDING, CONTRACT_TYPE_MILESTONE,
    CONTRACT_TYPE_ONE_TIME, FEE_BASIS_POINTS, MILESTONE_STATUS_PENDING, ROLE_PAYER, ROLE_RECIPIENT,
};
use crate::error::TrustPayError;
use crate::events::ContractCreatedEvent;
use crate::fees::{calculate_fee, fee_computable, fee_of};
use crate::global_state::{initialize_global_state_if_needed, is_uninitialized};
use crate::state::{milestone_sum, GlobalState, Milestone, TrustPay};

verus! {

/// One requested milestone: what is delivered and what it pays.
pub struct MilestoneInput {
    pub description: String,
    pub amount: u64,
}

/// Sum of the requested milestone amounts.
pub open spec fn milestone_input_sum(inputs: Seq<MilestoneInput>) -> int
    decreases inputs.len(),
{
    if inputs.len() == 0 {
        0
    } else {
        milestone_input_sum(inputs.drop_last()) + inputs.last().amount
    }
}

/// A prefix of the requested amounts never sums to more than all of them.
pub proof fn lemma_milestone_input_sum_take_le(inputs: Seq<MilestoneInput>, i: int)
    requires
        0 <= i <= inputs.len(),
    ensures
        milestone_input_sum(inputs.take(i)) <= milestone_input_sum(inputs),
    decreases inputs.len() - i,
{
    if i == inputs.len() {
        assert(inputs.take(i) =~= inputs);
    } else {
        assert(inputs.take(i + 1).drop_last() =~= inputs.take(i));
        lemma_milestone_input_sum_take_le(inputs, i + 1);
    }
}

/// The payer resolved from the creator's declared role.
pub open spec fn spec_payer_of(creator: u64, creator_role: u8, other_party: u64) -> u64 {
    if creator_role == ROLE_PAYER {
        creator
    } else {
        other_party
    }
}

/// The recipient resolved from the creator's declared role.
pub open spec fn spec_recipient_of(creator: u64, creator_role: u8, other_party: u64) -> u64 {
    if creator_role == ROLE_PAYER {
        other_party
    } else {
        creator
    }
}

/// The error a creation is refused with, if any, in the order the checks run.
pub open spec fn create_check(
    creator: u64,
    creator_role: u8,
    payer_pubkey: u64,
    other_party: u64,
    contract_type: u8,
    title: Seq<char>,
    terms_and_conditions: Seq<char>,
    total_amount: u64,
    milestone_inputs: Seq<MilestoneInput>,
    deadline_duration_seconds: u64,
    now: i64,
    gs: GlobalState,
) -> Option<TrustPayError> {
    if creator_role != ROLE_PAYER && creator_role != ROLE_RECIPIENT {
        Some(TrustPayError::InvalidRole)
    } else if spec_payer_of(creator, creator_role, other_party) != payer_pubkey {
        Some(TrustPayError::PayerMismatch)
    } else if contract_type != CONTRACT_TYPE_ONE_TIME && contract_type != CONTRACT_TYPE_MILESTONE {
        Some(TrustPayError::InvalidContractType)
    } else if total_amount == 0 {
        Some(TrustPayError::InvalidAmount)
    } else if terms_and_conditions.len() == 0 || terms_and_conditions.len() > 200 {
        Some(TrustPayError::TermsAndConditionsTooLong)
    } else if title.len() > 50 {
        Some(TrustPayError::TitleTooLong)
    } else if deadline_duration_seconds == 0 {
        Some(TrustPayError::InvalidDeadline)
    } else if contract_type == CONTRACT_TYPE_MILESTONE && milestone_inputs.len() == 0 {
        Some(TrustPayError::NoMilestonesProvided)
    } else if contract_type == CONTRACT_TYPE_MILESTONE && milestone_inputs.len() > 10 {
        Some(TrustPayError::TooManyMilestones)
    } else if contract_type == CONTRACT_TYPE_MILESTONE && milestone_input_sum(milestone_inputs)
        != total_amount {
        Some(TrustPayError::MilestoneAmountMismatch)
    } else if contract_type == CONTRACT_TYPE_ONE_TIME && milestone_inputs.len() != 0 {
        Some(TrustPayError::TooManyMilestones)
    } else if !fee_computable(total_amount) {
        Some(TrustPayError::CalculationError)
    } else if total_amount + fee_of(total_amount) > u64::MAX {
        Some(TrustPayError::CalculationError)
    } else if deadline_duration_seconds > i64::MAX {
        Some(TrustPayError::CalculationError)
    } else if creator_role == ROLE_PAYER && now + deadline_duration_seconds > i64::MAX {
        Some(TrustPayError::CalculationError)
    } else if gs.total_trust_pay_created == u64::MAX {
        Some(TrustPayError::CalculationError)
    } else {
        None
    }
}

/// The aggregate state after a creation: initialized on first use with the
/// creator as permanent authority, then one more created agreement counted.
pub open spec fn create_gs_post(gs: GlobalState, creator: u64, mint_decimals: u8, now: i64) -> GlobalState {
    let base = if is_uninitialized(gs) {
        GlobalState {
            authority: creator,
            token_decimals: mint_decimals,
            last_volume_update: now,
            fee_percentage: gs.fee_percentage,
            fee_destination: gs.fee_destination,
            total_fees_collected: gs.total_fees_collected,
            ..GlobalState::uninitialized()
        }
    } else {
        gs
    };
    GlobalState { total_trust_pay_created: (base.total_trust_pay_created + 1) as u64, ..base }
}

/// What a creation yields: the new record, the deposit owed to the escrow,
/// and the announcement.
pub struct CreateOutcome {
    pub contract: TrustPay,
    /// The total plus the fee if the creator is the payer and funds move at
    /// once; zero while the agreement waits for the payer's acceptance.
    pub deposit: u64,
    pub event: ContractCreatedEvent,
}

/// Creates an escrow agreement and counts it in the aggregate state. On
/// failure nothing changes, the aggregate state included.
#[verifier::loop_isolation(false)]
pub fn create_contract(
    global_state: &mut GlobalState,
    contract_id: u64,
    creator: u64,
    seed: u64,
    creator_role: u8,
    payer_pubkey: u64,
    other_party: u64,
    contract_type: u8,
    title: String,
    terms_and_conditions: String,
    total_amount: u64,
    milestone_inputs: Vec<MilestoneInput>,
    deadline_duration_seconds: u64,
    mint: u64,
    mint_decimals: u8,
    fee_destination: u64,
    now: i64,
) -> (r: Result<CreateOutcome, TrustPayError>)
    requires
        0 <= now,
    ensures
        match r {
            Ok(outcome) => {
                &&& create_check(
                    creator,
                    creator_role,
                    payer_pubkey,
                    other_party,
                    contract_type,
                    title@,
                    terms_and_conditions@,
                    total_amount,
                    milestone_inputs@,
                    deadline_duration_seconds,
                    now,
                    *old(global_state),
                ) is None
                &&& outcome.contract.wf()
                &&& outcome.contract.contract_type == contract_type
                &&& outcome.contract.seed == seed
                &&& outcome.contract.payer == spec_payer_of(creator, creator_role, other_party)
                &&& outcome.contract.recipient == spec_recipient_of(
                    creator,
                    creator_role,
                    other_party,
                )
                &&& outcome.contract.mint == mint
                &&& outcome.contract.title == title
                &&& outcome.contract.terms_and_conditions == terms_and_conditions
                &&& outcome.contract.total_contract_amount == total_amount
                &&& outcome.contract.fee_percentage == FEE_BASIS_POINTS
                &&& outcome.contract.fee == fee_of(total_amount)
                &&& outcome.contract.fee_destination == fee_destination
                &&& (if contract_type == CONTRACT_TYPE_MILESTONE {
                    &&& outcome.contract.milestones@.len() == milestone_inputs@.len()
                    &&& forall|i: int|
                        0 <= i < milestone_inputs@.len()
                            ==> #[trigger] outcome.contract.milestones@[i] == (Milestone {
                            description: milestone_inputs@[i].description,
                            amount: milestone_inputs@[i].amount,
                            status: MILESTONE_STATUS_PENDING,
                            completed_at: None,
                            approved_at: None,
                            dispute_reason: None,
                            dispute_id: None,
                        })
                } else {
                    &&& outcome.contract.milestones@.len() == 1
                    &&& outcome.contract.milestones@[0].description@ == "One-time payment"@
                    &&& outcome.contract.milestones@[0].amount == total_amount
                    &&& outcome.contract.milestones@[0].status == MILESTONE_STATUS_PENDING
                    &&& outcome.contract.milestones@[0].completed_at is None
                    &&& outcome.contract.milestones@[0].approved_at is None
                    &&& outcome.contract.milestones@[0].dispute_reason is None
                    &&& outcome.contract.milestones@[0].dispute_id is None
                })
                &&& milestone_sum(outcome.contract.milestones@) == total_amount
                &&& (if creator_role == ROLE_PAYER {
                    &&& outcome.contract.contract_status == CONTRACT_STATUS_IN_PROGRESS
                    &&& outcome.contract.deadline == Some(
                        (now + deadline_duration_seconds) as u64,
                    )
                    &&& outcome.contract.acceptance_timestamp == Some(now)
                    &&& outcome.deposit == total_amount + fee_of(total_amount)
                } else {
                    &&& outcome.contract.contract_status == CONTRACT_STATUS_PENDING
                    &&& outcome.contract.deadline is None
                    &&& outcome.contract.acceptance_timestamp is None
                    &&& outcome.deposit == 0
                })
                &&& *final(global_state) == create_gs_post(
                    *old(global_state),
                    creator,
                    mint_decimals,
                    now,
                )
                &&& outcome.event == (ContractCreatedEvent {
                    trust_pay: contract_id,
                    payer: spec_payer_of(creator, creator_role, other_party),
                    recipient: spec_recipient_of(creator, creator_role, other_party),
                    mint,
                    title,
                    total_amount,
                    milestone_count: outcome.contract.milestones@.len() as u8,
                    deadline: deadline_duration_seconds as i64,
                    fee_percentage: FEE_BASIS_POINTS,
                    fee_destination,
                })
            },
            Err(e) => {
                &&& create_check(
                    creator,
                    creator_role,
                    payer_pubkey,
                    other_party,
                    contract_type,
                    title@,
                    terms_and_conditions@,
                    total_amount,
                    milestone_inputs@,
                    deadline_duration_seconds,
                    now,
                    *old(global_state),
                ) == Some(e)
                &&& *final(global_state) == *old(global_state)
            },
        },
{
    if creator_role != ROLE_PAYER && creator_role != ROLE_RECIPIENT {
        return Err(TrustPayError::InvalidRole);
    }
    let payer = if creator_role == ROLE_PAYER {
        creator
    } else {
        other_party
    };
    let recipient = if creator_role == ROLE_PAYER {
        other_party
    } else {
        creator
    };
    if payer != payer_pubkey {
        return Err(TrustPayError::PayerMismatch);
    }
    if contract_type != CONTRACT_TYPE_ONE_TIME && contract_type != CONTRACT_TYPE_MILESTONE {
        return Err(TrustPayError::InvalidContractType);
    }
    if total_amount == 0 {
        return Err(TrustPayError::InvalidAmount);
    }
    let terms_len = terms_and_conditions.as_str().unicode_len();
    if terms_len == 0 || terms_len > 200 {
        return Err(TrustPayError::TermsAndConditionsTooLong);
    }
    if title.as_str().unicode_len() > 50 {
        return Err(TrustPayError::TitleTooLong);
    }
    if deadline_duration_seconds == 0 {
        return Err(TrustPayError::InvalidDeadline);
    }
    if contract_type == CONTRACT_TYPE_MILESTONE {
        if milestone_inputs.len() == 0 {
            return Err(TrustPayError::NoMilestonesProvided);
        }
        if milestone_inputs.len() > 10 {
            return Err(TrustPayError::TooManyMilestones);
        }
        let n = milestone_inputs.len();
        let mut milestone_total: u64 = 0;
        let mut i: usize = 0;
        while i < n
            invariant
                n == milestone_inputs@.len(),
                0 <= i <= n,
                milestone_total == milestone_input_sum(milestone_inputs@.take(i as int)),
            decreases n - i,
        {
            proof {
                assert(milestone_inputs@.take(i + 1).drop_last() =~= milestone_inputs@.take(
                    i as int,
                ));
                assert(milestone_inputs@.take(i + 1).last() == milestone_inputs@[i as int]);
                lemma_milestone_input_sum_take_le(milestone_inputs@, i + 1);
            }
            milestone_total = match milestone_total.checked_add(milestone_inputs[i].amount) {
                Some(v) => v,
                None => {
                    proof {
                        assert(milestone_input_sum(milestone_inputs@.take(i + 1))
                            == milestone_total + milestone_inputs@[i as int].amount);
                        assert(milestone_input_sum(milestone_inputs@) > u64::MAX);
                    }
                    return Err(TrustPayError::MilestoneAmountMismatch);
                },
            };
            i = i + 1;
        }
        proof {
            assert(milestone_inputs@.take(n as int) =~= milestone_inputs@);
        }
        if milestone_total != total_amount {
            return Err(TrustPayError::MilestoneAmountMismatch);
        }
    } else {
        if milestone_inputs.len() != 0 {
            return Err(TrustPayError::TooManyMilestones);
        }
    }
    let fee_amount = match calculate_fee(total_amount) {
        Ok(f) => f,
        Err(e) => {
            return Err(e);
        },
    };
    let total_deposit = match total_amount.checked_add(fee_amount) {
        Some(v) => v,
        None => {
            return Err(TrustPayError::CalculationError);
        },
    };
    if deadline_duration_seconds > i64::MAX as u64 {
        return Err(TrustPayError::CalculationError);
    }
    let should_deposit = creator_role == ROLE_PAYER;
    let mut deadline: Option<u64> = None;
    if should_deposit {
        match now.checked_add(deadline_duration_seconds as i64) {
            Some(d) => {
                deadline = Some(d as u64);
            },
            None => {
                return Err(TrustPayError::CalculationError);
            },
        }
    }
    if global_state.total_trust_pay_created == u64::MAX {
        return Err(TrustPayError::CalculationError);
    }
    initialize_global_state_if_needed(global_state, creator, mint_decimals, now);
    global_state.total_trust_pay_created = global_state.total_trust_pay_created + 1;

    let mut milestones: Vec<Milestone> = Vec::new();
    if contract_type == CONTRACT_TYPE_MILESTONE {
        let n = milestone_inputs.len();
        let mut i: usize = 0;
        while i < n
            invariant
                n == milestone_inputs@.len(),
                0 <= i <= n,
                milestones@.len() == i,
                forall|j: int|
                    0 <= j < i ==> #[trigger] milestones@[j] == (Milestone {
                        description: milestone_inputs@[j].description,
                        amount: milestone_inputs@[j].amount,
                        status: MILESTONE_STATUS_PENDING,
                        completed_at: None,
                        approved_at: None,
                        dispute_reason: None,
                        dispute_id: None,
                    }),
                milestone_sum(milestones@) == milestone_input_sum(
                    milestone_inputs@.take(i as int),
                ),
            decreases n - i,
        {
            proof {
                assert(milestone_inputs@.take(i + 1).drop_last() =~= milestone_inputs@.take(
                    i as int,
                ));
            }
            let ghost before_push = milestones@;
            milestones.push(
                Milestone {
                    description: milestone_inputs[i].description.clone(),
                    amount: milestone_inputs[i].amount,
                    status: MILESTONE_STATUS_PENDING,
                    completed_at: None,
                    approved_at: None,
                    dispute_reason: None,
                    dispute_id: None,
                },
            );
            proof {
                assert(milestones@.drop_last() =~= before_push);
            }
            i = i + 1;
        }
        proof {
            assert(milestone_inputs@.take(n as int) =~= milestone_inputs@);
        }
    } else {
        milestones.push(
            Milestone {
                description: String::from_str("One-time payment"),
                amount: total_amount,
                status: MILESTONE_STATUS_PENDING,
                completed_at: None,
                approved_at: None,
                dispute_reason: None,
                dispute_id: None,
            },
        );
    }

    proof {
        if contract_type != CONTRACT_TYPE_MILESTONE {
            assert(milestones@.drop_last() =~= Seq::<Milestone>::empty());
            assert(milestone_sum(Seq::<Milestone>::empty()) == 0);
        }
        assert(milestone_sum(milestones@) == total_amount);
        assert forall|j: int| 0 <= j < milestones@.len() implies #[trigger] milestones@[j].status
            == MILESTONE_STATUS_PENDING by {
            assert(milestones@[j] == milestones@[j]);
        };
    }
    let milestone_count = milestones.len() as u8;
    let event = ContractCreatedEvent {
        trust_pay: contract_id,
        payer,
        recipient,
        mint,
        title: title.clone(),
        total_amount,
        milestone_count,
        deadline: deadline_duration_seconds as i64,
        fee_percentage: FEE_BASIS_POINTS,
        fee_destination,
    };
    let contract = TrustPay {
        contract_type,
        seed,
        payer,
        recipient,
        mint,
        title,
        terms_and_conditions,
        total_contract_amount: total_amount,
        deadline,
        acceptance_timestamp: if should_deposit {
            Some(now)
        } else {
            None
        },
        contract_status: if should_deposit {
            CONTRACT_STATUS_IN_PROGRESS
        } else {
            CONTRACT_STATUS_PENDING
        },
        fee_percentage: FEE_BASIS_POINTS,
        fee_destination,
        fee: fee_amount,
        milestones,
    };
    Ok(
        CreateOutcome {
            contract,
            deposit: if should_deposit {
                total_deposit
            } else {
                0
            },
            event,
        },
    )
}

} // verus!
