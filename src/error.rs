//! Errors of the plan registry, claim ledger, identity gate and version
//! manager.

use vstd::prelude::*;

verus! {

/// Every way an operation on the registry can be refused.
#[derive(Clone, Copy, Debug, PartialEq, Eq, Structural)]
pub enum InheritanceError {
    InvalidAssetType,
    InvalidTotalAmount,
    MissingRequiredField,
    TooManyBeneficiaries,
    InvalidClaimCode,
    AllocationPercentageMismatch,
    DescriptionTooLong,
    InvalidBeneficiaryData,
    Unauthorized,
    PlanNotFound,
    InvalidBeneficiaryIndex,
    AllocationExceedsLimit,
    InvalidAllocation,
    InvalidClaimCodeRange,
    ClaimNotAllowedYet,
    AlreadyClaimed,
    BeneficiaryNotFound,
    PlanAlreadyDeactivated,
    PlanNotActive,
    AdminNotSet,
    AdminAlreadyInitialized,
    NotAdmin,
    KycNotSubmitted,
    KycAlreadyApproved,
    UpgradeFailed,
    MigrationNotRequired,
    PlanNotClaimed,
    KycAlreadyRejected,
    /// The caller's identity verification is not approved.
    KycNotApproved,
    /// No further plan identifier can be assigned.
    PlanCapacityExhausted,
}

} // verus!
