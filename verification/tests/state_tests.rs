use trust_pay::constants::{CONTRACT_TYPE_MILESTONE, ROLE_PAYER};
use trust_pay::create_contract::{create_contract, CreateOutcome, MilestoneInput};
use trust_pay::error::TrustPayError;
use trust_pay::global_state::{
    ensure_high_watermark_preserved, handle_trust_pay_refund, initialize_global_state,
    initialize_global_state_if_needed, update_on_fee_collection, update_on_payment_approval,
    update_on_trust_pay_close, update_volume_metrics,
};
use trust_pay::mark_as_complete::mark_milestone_complete;
use trust_pay::state::GlobalState;

const AUTHORITY: u64 = 5;
const NOW: i64 = 1_000_000;

#[test]
fn initialize_global_state_starts_all_counters_at_zero() {
    let gs = initialize_global_state(AUTHORITY, 9, NOW);
    assert_eq!(gs.authority, AUTHORITY);
    assert_eq!(gs.token_decimals, 9);
    assert_eq!(gs.last_volume_update, NOW);
    assert_eq!(gs.total_trust_pay_created, 0);
    assert_eq!(gs.total_trust_pay_closed, 0);
    assert_eq!(gs.total_confirmations, 0);
    assert_eq!(gs.total_volume, 0);
    assert_eq!(gs.high_watermark_volume, 0);
    assert_eq!(gs.total_disputes, 0);
    assert_eq!(gs.total_fees_collected, 0);
}

#[test]
fn lazy_initialization_runs_once() {
    let mut gs = GlobalState::default();
    initialize_global_state_if_needed(&mut gs, AUTHORITY, 9, NOW);
    assert_eq!(gs.authority, AUTHORITY);
    assert_eq!(gs.token_decimals, 9);
    // Once a contract has been counted, the authority never changes.
    gs.total_trust_pay_created = 1;
    initialize_global_state_if_needed(&mut gs, 77, 3, NOW + 5);
    assert_eq!(gs.authority, AUTHORITY);
    assert_eq!(gs.token_decimals, 9);
    assert_eq!(gs.last_volume_update, NOW);
}

#[test]
fn volume_metrics_only_rise_and_need_the_authority() {
    let mut gs = initialize_global_state(AUTHORITY, 9, NOW);
    let denied = update_volume_metrics(&mut gs, 99, 500, NOW + 1);
    assert_eq!(denied.err(), Some(TrustPayError::Unauthorized));
    assert_eq!(gs.high_watermark_volume, 0);
    update_volume_metrics(&mut gs, AUTHORITY, 500, NOW + 2).unwrap();
    assert_eq!(gs.high_watermark_volume, 500);
    // A lower reading never lowers the watermark.
    update_volume_metrics(&mut gs, AUTHORITY, 100, NOW + 3).unwrap();
    assert_eq!(gs.high_watermark_volume, 500);
    assert_eq!(gs.last_volume_update, NOW + 3);
}

#[test]
fn payment_approval_updates_every_volume_counter() {
    let mut gs = initialize_global_state(AUTHORITY, 9, NOW);
    update_on_payment_approval(&mut gs, 700, NOW + 1).unwrap();
    assert_eq!(gs.total_confirmations, 1);
    assert_eq!(gs.total_volume, 700);
    assert_eq!(gs.high_watermark_volume, 700);
    update_on_payment_approval(&mut gs, 300, NOW + 2).unwrap();
    assert_eq!(gs.total_confirmations, 2);
    assert_eq!(gs.total_volume, 1_000);
    assert_eq!(gs.high_watermark_volume, 1_000);
    assert_eq!(gs.last_volume_update, NOW + 2);
}

#[test]
fn payment_approval_overflow_changes_nothing() {
    let mut gs = initialize_global_state(AUTHORITY, 9, NOW);
    gs.total_volume = u64::MAX - 10;
    gs.high_watermark_volume = u64::MAX - 10;
    let before = gs;
    let r = update_on_payment_approval(&mut gs, 11, NOW + 1);
    assert_eq!(r.err(), Some(TrustPayError::CalculationError));
    assert_eq!(gs, before);
}

#[test]
fn close_refund_and_fee_counters() {
    let mut gs = initialize_global_state(AUTHORITY, 9, NOW);
    update_on_trust_pay_close(&mut gs, NOW + 1).unwrap();
    assert_eq!(gs.total_trust_pay_closed, 1);
    handle_trust_pay_refund(&mut gs, NOW + 2).unwrap();
    assert_eq!(gs.total_trust_pay_closed, 2);
    assert_eq!(gs.last_volume_update, NOW + 2);
    update_on_fee_collection(&mut gs, 40).unwrap();
    update_on_fee_collection(&mut gs, 2).unwrap();
    assert_eq!(gs.total_fees_collected, 42);
    gs.total_fees_collected = u64::MAX;
    let overflow = update_on_fee_collection(&mut gs, 1);
    assert_eq!(overflow.err(), Some(TrustPayError::CalculationError));
    assert_eq!(gs.total_fees_collected, u64::MAX);
    ensure_high_watermark_preserved(&mut gs, NOW + 9).unwrap();
    assert_eq!(gs.last_volume_update, NOW + 9);
}

fn milestone_contract() -> CreateOutcome {
    let mut gs = GlobalState::default();
    create_contract(
        &mut gs,
        7,
        1,
        1,
        ROLE_PAYER,
        1,
        2,
        CONTRACT_TYPE_MILESTONE,
        String::from("A job"),
        String::from("The terms of the job."),
        1_000,
        vec![
            MilestoneInput { description: String::from("first"), amount: 600 },
            MilestoneInput { description: String::from("second"), amount: 400 },
        ],
        1_000,
        3,
        6,
        4,
        NOW,
    )
    .unwrap()
}

#[test]
fn trust_pay_accounting_methods() {
    let out = milestone_contract();
    let mut c = out.contract;
    let mut gs = GlobalState::default();
    assert!(!c.is_all_milestones_approved());
    assert!(!c.has_active_disputes());
    assert_eq!(c.get_total_approved_amount(), 0);
    assert_eq!(c.get_remaining_amount(), 1_000);

    mark_milestone_complete(&mut c, 7, 2, 0, NOW + 1).unwrap();
    trust_pay::approve_payment::approve_milestone_payment(&mut c, &mut gs, 7, 1, 0, out.deposit, NOW + 2)
        .unwrap();
    assert_eq!(c.get_total_approved_amount(), 600);
    assert_eq!(c.get_remaining_amount(), 400);
    assert!(!c.is_all_milestones_approved());

    mark_milestone_complete(&mut c, 7, 2, 1, NOW + 3).unwrap();
    dispute_helper(&mut c, &mut gs);
    assert!(c.has_active_disputes());
}

fn dispute_helper(c: &mut trust_pay::state::TrustPay, gs: &mut GlobalState) {
    trust_pay::dispute_contract::dispute_contract(
        c,
        gs,
        7,
        1,
        1,
        String::from("valid reason text"),
        NOW + 4,
    )
    .unwrap();
}

#[test]
fn error_messages_are_descriptive() {
    assert_eq!(TrustPayError::ContractNotPending.message(), "Contract is not in pending status.");
    assert_eq!(
        TrustPayError::MilestoneAmountMismatch.message(),
        "Milestone amounts do not sum to total contract amount."
    );
    assert_eq!(TrustPayError::CalculationError.message(), "Calculation error occurred.");
}
