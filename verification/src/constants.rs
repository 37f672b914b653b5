//! Named codes for contract types, caller roles, contract statuses and
//! milestone statuses, and the fixed fee rate.

use vstd::prelude::*;

verus! {

// Contract type
pub const CONTRACT_TYPE_ONE_TIME: u8 = 0;
pub const CONTRACT_TYPE_MILESTONE: u8 = 1;

// Roles
pub const ROLE_PAYER: u8 = 0;
pub const ROLE_RECIPIENT: u8 = 1;

// Contract status
pub const CONTRACT_STATUS_PENDING: u8 = 0;
pub const CONTRACT_STATUS_IN_PROGRESS: u8 = 1;
pub const CONTRACT_STATUS_COMPLETED: u8 = 2;
pub const CONTRACT_STATUS_DISPUTED: u8 = 3;
pub const CONTRACT_STATUS_CANCELLED: u8 = 4;

// Milestone status
pub const MILESTONE_STATUS_PENDING: u8 = 0;
pub const MILESTONE_STATUS_COMPLETED_BY_SP: u8 = 1;
pub const MILESTONE_STATUS_APPROVED_BY_PAYER: u8 = 2;
pub const MILESTONE_STATUS_DISPUTED: u8 = 3;

/// Fee rate in basis points, fixed for the whole deployment: 0.05%.
pub const FEE_BASIS_POINTS: u16 = 5;

} // verus!
