use trust_pay::constants::{
    CONTRACT_STATUS_IN_PROGRESS, CONTRACT_STATUS_PENDING, CONTRACT_TYPE_MILESTONE,
    CONTRACT_TYPE_ONE_TIME, MILESTONE_STATUS_PENDING, ROLE_PAYER, ROLE_RECIPIENT,
};
use trust_pay::create_contract::{create_contract, CreateOutcome, MilestoneInput};
use trust_pay::error::TrustPayError;
use trust_pay::state::GlobalState;

const PAYER: u64 = 11;
const RECIPIENT: u64 = 22;
const MINT: u64 = 33;
const FEE_DEST: u64 = 44;
const CONTRACT_ID: u64 = 77;
const NOW: i64 = 1_000_000;

fn inputs(amounts: &[u64]) -> Vec<MilestoneInput> {
    amounts
        .iter()
        .map(|a| MilestoneInput { description: format!("work for {}", a), amount: *a })
        .collect()
}

fn create(
    gs: &mut GlobalState,
    creator_role: u8,
    contract_type: u8,
    total_amount: u64,
    milestone_inputs: Vec<MilestoneInput>,
) -> Result<CreateOutcome, TrustPayError> {
    let creator = if creator_role == ROLE_PAYER { PAYER } else { RECIPIENT };
    let other_party = if creator_role == ROLE_PAYER { RECIPIENT } else { PAYER };
    create_contract(
        gs,
        CONTRACT_ID,
        creator,
        1,
        creator_role,
        PAYER,
        other_party,
        contract_type,
        String::from("A job"),
        String::from("The terms of the job."),
        total_amount,
        milestone_inputs,
        1_000,
        MINT,
        6,
        FEE_DEST,
        NOW,
    )
}

#[test]
fn payer_created_one_time_contract_starts_in_progress() {
    let mut gs = GlobalState::default();
    let out = create(&mut gs, ROLE_PAYER, CONTRACT_TYPE_ONE_TIME, 1_000_000, vec![]).unwrap();
    let c = &out.contract;
    assert_eq!(c.contract_status, CONTRACT_STATUS_IN_PROGRESS);
    assert_eq!(c.payer, PAYER);
    assert_eq!(c.recipient, RECIPIENT);
    assert_eq!(c.total_contract_amount, 1_000_000);
    assert_eq!(c.fee, 500);
    assert_eq!(c.deadline, Some((NOW + 1_000) as u64));
    assert_eq!(c.acceptance_timestamp, Some(NOW));
    assert_eq!(out.deposit, 1_000_500);
    // A single implicit milestone covers the whole amount.
    assert_eq!(c.milestones.len(), 1);
    assert_eq!(c.milestones[0].amount, 1_000_000);
    assert_eq!(c.milestones[0].status, MILESTONE_STATUS_PENDING);
    assert_eq!(c.milestones[0].description, "One-time payment");
    assert_eq!(gs.total_trust_pay_created, 1);
    assert_eq!(out.event.total_amount, 1_000_000);
    assert_eq!(out.event.milestone_count, 1);
}

#[test]
fn recipient_created_contract_waits_pending_without_deposit() {
    let mut gs = GlobalState::default();
    let out =
        create(&mut gs, ROLE_RECIPIENT, CONTRACT_TYPE_MILESTONE, 1_000_000, inputs(&[600_000, 400_000]))
            .unwrap();
    let c = &out.contract;
    assert_eq!(c.contract_status, CONTRACT_STATUS_PENDING);
    assert_eq!(c.deadline, None);
    assert_eq!(c.acceptance_timestamp, None);
    assert_eq!(out.deposit, 0);
    assert_eq!(c.milestones.len(), 2);
    assert_eq!(c.milestones[0].amount, 600_000);
    assert_eq!(c.milestones[1].amount, 400_000);
}

#[test]
fn milestone_amounts_must_sum_to_total() {
    let mut gs = GlobalState::default();
    let r = create(&mut gs, ROLE_PAYER, CONTRACT_TYPE_MILESTONE, 1_000_000, inputs(&[600_000, 300_000]));
    assert_eq!(r.err(), Some(TrustPayError::MilestoneAmountMismatch));
    // Rejected before any state mutation: nothing was counted.
    assert_eq!(gs, GlobalState::default());
    let r2 = create(&mut gs, ROLE_PAYER, CONTRACT_TYPE_MILESTONE, 1_000_000, inputs(&[600_000, 400_001]));
    assert_eq!(r2.err(), Some(TrustPayError::MilestoneAmountMismatch));
    assert_eq!(gs, GlobalState::default());
}

#[test]
fn milestone_sum_overflow_is_a_mismatch() {
    let mut gs = GlobalState::default();
    let r = create(
        &mut gs,
        ROLE_PAYER,
        CONTRACT_TYPE_MILESTONE,
        1_000_000,
        inputs(&[u64::MAX, u64::MAX, 2]),
    );
    assert_eq!(r.err(), Some(TrustPayError::MilestoneAmountMismatch));
    assert_eq!(gs, GlobalState::default());
}

#[test]
fn invalid_role_is_rejected() {
    let mut gs = GlobalState::default();
    let r = create_contract(
        &mut gs,
        CONTRACT_ID,
        PAYER,
        1,
        7,
        PAYER,
        RECIPIENT,
        CONTRACT_TYPE_ONE_TIME,
        String::from("A job"),
        String::from("The terms of the job."),
        1_000_000,
        vec![],
        1_000,
        MINT,
        6,
        FEE_DEST,
        NOW,
    );
    assert_eq!(r.err(), Some(TrustPayError::InvalidRole));
    assert_eq!(gs, GlobalState::default());
}

#[test]
fn declared_payer_must_match_resolved_payer() {
    let mut gs = GlobalState::default();
    let r = create_contract(
        &mut gs,
        CONTRACT_ID,
        PAYER,
        1,
        ROLE_PAYER,
        RECIPIENT,
        RECIPIENT,
        CONTRACT_TYPE_ONE_TIME,
        String::from("A job"),
        String::from("The terms of the job."),
        1_000_000,
        vec![],
        1_000,
        MINT,
        6,
        FEE_DEST,
        NOW,
    );
    assert_eq!(r.err(), Some(TrustPayError::PayerMismatch));
}

#[test]
fn invalid_contract_type_is_rejected() {
    let mut gs = GlobalState::default();
    let r = create(&mut gs, ROLE_PAYER, 9, 1_000_000, vec![]);
    assert_eq!(r.err(), Some(TrustPayError::InvalidContractType));
}

#[test]
fn zero_amount_is_rejected() {
    let mut gs = GlobalState::default();
    let r = create(&mut gs, ROLE_PAYER, CONTRACT_TYPE_ONE_TIME, 0, vec![]);
    assert_eq!(r.err(), Some(TrustPayError::InvalidAmount));
}

#[test]
fn terms_length_bounds_are_enforced() {
    let mut gs = GlobalState::default();
    let empty = create_contract(
        &mut gs,
        CONTRACT_ID,
        PAYER,
        1,
        ROLE_PAYER,
        PAYER,
        RECIPIENT,
        CONTRACT_TYPE_ONE_TIME,
        String::from("A job"),
        String::new(),
        1_000_000,
        vec![],
        1_000,
        MINT,
        6,
        FEE_DEST,
        NOW,
    );
    assert_eq!(empty.err(), Some(TrustPayError::TermsAndConditionsTooLong));
    let long = create_contract(
        &mut gs,
        CONTRACT_ID,
        PAYER,
        1,
        ROLE_PAYER,
        PAYER,
        RECIPIENT,
        CONTRACT_TYPE_ONE_TIME,
        String::from("A job"),
        "x".repeat(201),
        1_000_000,
        vec![],
        1_000,
        MINT,
        6,
        FEE_DEST,
        NOW,
    );
    assert_eq!(long.err(), Some(TrustPayError::TermsAndConditionsTooLong));
    let exact = create_contract(
        &mut gs,
        CONTRACT_ID,
        PAYER,
        1,
        ROLE_PAYER,
        PAYER,
        RECIPIENT,
        CONTRACT_TYPE_ONE_TIME,
        String::from("A job"),
        "x".repeat(200),
        1_000_000,
        vec![],
        1_000,
        MINT,
        6,
        FEE_DEST,
        NOW,
    );
    assert!(exact.is_ok());
}

#[test]
fn title_length_bound_is_enforced() {
    let mut gs = GlobalState::default();
    let long = create_contract(
        &mut gs,
        CONTRACT_ID,
        PAYER,
        1,
        ROLE_PAYER,
        PAYER,
        RECIPIENT,
        CONTRACT_TYPE_ONE_TIME,
        "t".repeat(51),
        String::from("The terms of the job."),
        1_000_000,
        vec![],
        1_000,
        MINT,
        6,
        FEE_DEST,
        NOW,
    );
    assert_eq!(long.err(), Some(TrustPayError::TitleTooLong));
    let exact = create_contract(
        &mut gs,
        CONTRACT_ID,
        PAYER,
        1,
        ROLE_PAYER,
        PAYER,
        RECIPIENT,
        CONTRACT_TYPE_ONE_TIME,
        "t".repeat(50),
        String::from("The terms of the job."),
        1_000_000,
        vec![],
        1_000,
        MINT,
        6,
        FEE_DEST,
        NOW,
    );
    assert!(exact.is_ok());
}

#[test]
fn zero_deadline_duration_is_rejected() {
    let mut gs = GlobalState::default();
    let r = create_contract(
        &mut gs,
        CONTRACT_ID,
        PAYER,
        1,
        ROLE_PAYER,
        PAYER,
        RECIPIENT,
        CONTRACT_TYPE_ONE_TIME,
        String::from("A job"),
        String::from("The terms of the job."),
        1_000_000,
        vec![],
        0,
        MINT,
        6,
        FEE_DEST,
        NOW,
    );
    assert_eq!(r.err(), Some(TrustPayError::InvalidDeadline));
}

#[test]
fn milestone_count_bounds_are_enforced() {
    let mut gs = GlobalState::default();
    let none = create(&mut gs, ROLE_PAYER, CONTRACT_TYPE_MILESTONE, 1_000_000, vec![]);
    assert_eq!(none.err(), Some(TrustPayError::NoMilestonesProvided));
    let eleven: Vec<u64> = vec![1; 11];
    let too_many = create(&mut gs, ROLE_PAYER, CONTRACT_TYPE_MILESTONE, 11, inputs(&eleven));
    assert_eq!(too_many.err(), Some(TrustPayError::TooManyMilestones));
    let ten: Vec<u64> = vec![1; 10];
    let ok = create(&mut gs, ROLE_PAYER, CONTRACT_TYPE_MILESTONE, 10, inputs(&ten));
    assert!(ok.is_ok());
}

#[test]
fn one_time_contract_refuses_milestone_inputs() {
    let mut gs = GlobalState::default();
    let r = create(&mut gs, ROLE_PAYER, CONTRACT_TYPE_ONE_TIME, 1_000_000, inputs(&[1_000_000]));
    assert_eq!(r.err(), Some(TrustPayError::TooManyMilestones));
}

#[test]
fn fee_overflow_on_creation_is_rejected() {
    let mut gs = GlobalState::default();
    let r = create(&mut gs, ROLE_PAYER, CONTRACT_TYPE_ONE_TIME, u64::MAX, vec![]);
    assert_eq!(r.err(), Some(TrustPayError::CalculationError));
    assert_eq!(gs, GlobalState::default());
}

#[test]
fn first_creation_fixes_the_resolver_authority() {
    let mut gs = GlobalState::default();
    create(&mut gs, ROLE_RECIPIENT, CONTRACT_TYPE_ONE_TIME, 1_000, vec![]).unwrap();
    // The first creating actor becomes the permanent authority.
    assert_eq!(gs.authority, RECIPIENT);
    assert_eq!(gs.total_trust_pay_created, 1);
    create(&mut gs, ROLE_PAYER, CONTRACT_TYPE_ONE_TIME, 2_000, vec![]).unwrap();
    // A later creation leaves the authority as it was.
    assert_eq!(gs.authority, RECIPIENT);
    assert_eq!(gs.total_trust_pay_created, 2);
}
