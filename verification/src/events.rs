//! Domain events. Each successful operation returns the event it owes; the
//! host publishes them through its own sink.

use vstd::prelude::*;

verus! {

pub struct ContractCreatedEvent {
    pub trust_pay: u64,
    pub payer: u64,
    pub recipient: u64,
    pub mint: u64,
    pub title: String,
    pub total_amount: u64,
    pub milestone_count: u8,
    pub deadline: i64,
    pub fee_percentage: u16,
    pub fee_destination: u64,
}

pub struct ContractCancelledEvent {
    pub trust_pay: u64,
    pub payer: u64,
    pub recipient: u64,
    pub canceller: u64,
    pub total_amount: u64,
    pub refunded_amount: u64,
    pub cancelled_at: i64,
}

pub struct ContractAcceptedEvent {
    pub trust_pay: u64,
    pub payer: u64,
    pub recipient: u64,
    pub title: String,
    pub total_amount: u64,
    pub milestone_count: u8,
    pub accepted_at: i64,
    pub deadline: i64,
}

pub struct MilestoneCompletedEvent {
    pub trust_pay: u64,
    pub payer: u64,
    pub recipient: u64,
    pub milestone_index: u8,
    pub description: String,
    pub amount: u64,
    pub completed_at: i64,
}

pub struct MilestoneApprovedEvent {
    pub trust_pay: u64,
    pub payer: u64,
    pub recipient: u64,
    pub milestone_index: u8,
    pub description: String,
    pub amount: u64,
    pub fee_amount: u64,
    pub approved_at: i64,
}

pub struct ContractCompletedEvent {
    pub trust_pay: u64,
    pub payer: u64,
    pub recipient: u64,
    pub total_amount: u64,
    pub completed_at: i64,
}

pub struct ContractDeclinedEvent {
    pub trust_pay: u64,
    pub payer: u64,
    pub recipient: u64,
    pub total_amount: u64,
    pub refunded_amount: u64,
    pub declined_at: i64,
}

pub struct DisputeCreatedEvent {
    pub trust_pay: u64,
    pub payer: u64,
    pub recipient: u64,
    pub milestone_index: u8,
    pub description: String,
    pub amount: u64,
    pub disputer: u64,
    pub reason: String,
    pub dispute_id: String,
    pub disputed_at: i64,
}

pub struct DisputeResolvedEvent {
    pub trust_pay: u64,
    pub payer: u64,
    pub recipient: u64,
    pub milestone_index: u8,
    pub description: String,
    pub amount: u64,
    pub fee_amount: u64,
    pub resolver: u64,
    /// 0 = favor payer, 1 = favor recipient, 2 = split.
    pub resolution: u8,
    pub resolution_reason: String,
    pub resolved_at: i64,
}

} // verus!
