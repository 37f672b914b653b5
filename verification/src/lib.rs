//! An escrow payment engine: it holds funds for a job between a payer and a
//! recipient, releases funds against milestones, and arbitrates disputes
//! through a trusted resolver.
//!
//! The library is the contract lifecycle state machine: status transitions,
//! milestone accounting, fee computation, dispute generation and resolution,
//! and aggregate statistics bookkeeping. It works on plain values: account
//! identities are opaque `u64` ids, the clock is an `i64` seconds value read
//! once per operation by the host, and the escrow balance is a `u64` handed in
//! by the host. Each operation validates, then either commits its whole state
//! change and returns the fund movements for the host to perform, or returns
//! an error and changes nothing.

pub mod accept_contract;
pub mod approve_payment;
pub mod cancel_contract;
pub mod constants;
pub mod create_contract;
pub mod decline_contract;
pub mod dispute_contract;
pub mod dispute_id;
pub mod error;
pub mod events;
pub mod fees;
pub mod global_state;
pub mod mark_as_complete;
pub mod resolve_dispute;
pub mod state;
