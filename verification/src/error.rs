//! Machine-distinguishable error codes. Every operation aborts with one of
//! these and leaves all state unchanged.

use vstd::prelude::*;

verus! {

#[derive(Clone, Copy, Debug, PartialEq, Eq, Structural)]
pub enum TrustPayError {
    CustomError,
    InvalidAmount,
    TitleTooLong,
    NoMilestonesProvided,
    TooManyMilestones,
    InvalidDeadline,
    DisputeResolutionTooLong,
    TermsAndConditionsTooLong,
    ContractNotAccepted,
    MilestoneAmountMismatch,
    CalculationError,
    ContractNotPending,
    ContractExpired,
    ContractNotInProgress,
    ContractNotDisputed,
    InvalidMilestoneIndex,
    MilestoneNotPending,
    MilestoneNotCompleted,
    MilestoneNotDisputable,
    MilestoneNotDisputed,
    InvalidDisputeReason,
    InvalidResolution,
    DeadlineTooFar,
    Unauthorized,
    UnauthorizedDisputer,
    UnauthorizedResolver,
    InvalidRole,
    InvalidContractType,
    PayerMismatch,
}

impl TrustPayError {
    /// A short description of the error, for hosts that report errors as text.
    pub fn message(&self) -> &'static str {
        match self {
            TrustPayError::CustomError => "Custom error message",
            TrustPayError::InvalidAmount => "Invalid amount specified.",
            TrustPayError::TitleTooLong => "Contract title is too long.",
            TrustPayError::NoMilestonesProvided => "No milestones provided for the contract.",
            TrustPayError::TooManyMilestones => "Too many milestones (max 10 allowed).",
            TrustPayError::InvalidDeadline => "Invalid deadline specified.",
            TrustPayError::DisputeResolutionTooLong => {
                "Dispute resolution mechanism description is too long."
            },
            TrustPayError::TermsAndConditionsTooLong => {
                "Terms and conditions length is out of range."
            },
            TrustPayError::ContractNotAccepted => "Contract has not been accepted yet.",
            TrustPayError::MilestoneAmountMismatch => {
                "Milestone amounts do not sum to total contract amount."
            },
            TrustPayError::CalculationError => "Calculation error occurred.",
            TrustPayError::ContractNotPending => "Contract is not in pending status.",
            TrustPayError::ContractExpired => "Contract has expired.",
            TrustPayError::ContractNotInProgress => "Contract is not in progress.",
            TrustPayError::ContractNotDisputed => "Contract is not in disputed status.",
            TrustPayError::InvalidMilestoneIndex => "Invalid milestone index.",
            TrustPayError::MilestoneNotPending => "Milestone is not in pending status.",
            TrustPayError::MilestoneNotCompleted => {
                "Milestone is not completed by service provider."
            },
            TrustPayError::MilestoneNotDisputable => "Milestone is not disputable.",
            TrustPayError::MilestoneNotDisputed => "Milestone is not in disputed status.",
            TrustPayError::InvalidDisputeReason => "Invalid dispute reason.",
            TrustPayError::InvalidResolution => "Invalid resolution value.",
            TrustPayError::DeadlineTooFar => "Deadline is too far.",
            TrustPayError::Unauthorized => "You are not authorized to perform this action.",
            TrustPayError::UnauthorizedDisputer => {
                "Only the payer or recipient can dispute a milestone."
            },
            TrustPayError::UnauthorizedResolver => {
                "Only an authorized resolver can resolve a dispute."
            },
            TrustPayError::InvalidRole => "Invalid role specified.",
            TrustPayError::InvalidContractType => "Invalid contract type.",
            TrustPayError::PayerMismatch => "Payer mismatch",
        }
    }
}

} // verus!
