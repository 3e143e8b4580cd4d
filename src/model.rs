//! Plans, beneficiaries, claims, identity-verification records, events and
//! audit entries, with their mathematical views.

use vstd::prelude::*;
use crate::allocation::{sum_bp, FULL_ALLOCATION_BP, MAX_BENEFICIARIES};
use crate::eligibility::DistributionMethod;
use crate::text::copy_bytes;

verus! {

/// Identity of an actor (owner, administrator, user); it arrives already
/// authenticated.
pub type ActorId = u64;

/// A beneficiary as stored: one-way digests of name, e-mail and claim code,
/// the bank account in clear for settlement, and a share in basis points.
#[derive(Debug)]
pub struct Beneficiary {
    pub hashed_full_name: Vec<u8>,
    pub hashed_email: Vec<u8>,
    pub hashed_claim_code: Vec<u8>,
    pub bank_account: Vec<u8>,
    pub allocation_bp: u32,
}

/// A beneficiary as submitted when added to an existing plan.
#[derive(Debug)]
pub struct BeneficiaryInput {
    pub name: String,
    pub email: String,
    pub claim_code: u32,
    pub bank_account: Vec<u8>,
    pub allocation_bp: u32,
}

/// An inheritance plan. Its identifier is its position in the registry.
#[derive(Debug)]
pub struct InheritancePlan {
    pub plan_name: String,
    pub description: String,
    pub asset_type: String,
    pub total_amount: u64,
    pub distribution_method: DistributionMethod,
    pub beneficiaries: Vec<Beneficiary>,
    pub total_allocation_bp: u32,
    pub owner: ActorId,
    pub created_at: u64,
    pub is_active: bool,
}

/// View of a beneficiary.
pub struct BeneficiaryView {
    pub hashed_full_name: Seq<u8>,
    pub hashed_email: Seq<u8>,
    pub hashed_claim_code: Seq<u8>,
    pub bank_account: Seq<u8>,
    pub allocation_bp: u32,
}

/// View of a plan.
pub struct PlanView {
    pub plan_name: Seq<char>,
    pub description: Seq<char>,
    pub asset_type: Seq<char>,
    pub total_amount: u64,
    pub distribution_method: DistributionMethod,
    pub beneficiaries: Seq<BeneficiaryView>,
    pub total_allocation_bp: u32,
    pub owner: ActorId,
    pub created_at: u64,
    pub is_active: bool,
}

impl View for Beneficiary {
    type V = BeneficiaryView;

    open spec fn view(&self) -> BeneficiaryView {
        BeneficiaryView {
            hashed_full_name: self.hashed_full_name@,
            hashed_email: self.hashed_email@,
            hashed_claim_code: self.hashed_claim_code@,
            bank_account: self.bank_account@,
            allocation_bp: self.allocation_bp,
        }
    }
}

impl View for InheritancePlan {
    type V = PlanView;

    open spec fn view(&self) -> PlanView {
        PlanView {
            plan_name: self.plan_name@,
            description: self.description@,
            asset_type: self.asset_type@,
            total_amount: self.total_amount,
            distribution_method: self.distribution_method,
            beneficiaries: self.beneficiaries@.map_values(|b: Beneficiary| b@),
            total_allocation_bp: self.total_allocation_bp,
            owner: self.owner,
            created_at: self.created_at,
            is_active: self.is_active,
        }
    }
}

/// The allocations of a plan's beneficiaries, in order.
pub open spec fn plan_allocations(p: PlanView) -> Seq<u32> {
    p.beneficiaries.map_values(|b: BeneficiaryView| b.allocation_bp)
}

/// What holds of every stored plan: at most ten beneficiaries, each with a
/// positive share, and a recorded total equal to their sum, at most the
/// whole.
pub open spec fn plan_invariant(p: PlanView) -> bool {
    &&& p.beneficiaries.len() <= MAX_BENEFICIARIES
    &&& forall|i: int| 0 <= i < p.beneficiaries.len() ==> p.beneficiaries[i].allocation_bp > 0
    &&& p.total_allocation_bp == sum_bp(plan_allocations(p))
    &&& p.total_allocation_bp <= FULL_ALLOCATION_BP
}

impl Beneficiary {
    /// A copy of this beneficiary.
    pub fn copy(&self) -> (r: Beneficiary)
        ensures
            r@ == self@,
    {
        Beneficiary {
            hashed_full_name: copy_bytes(self.hashed_full_name.as_slice()),
            hashed_email: copy_bytes(self.hashed_email.as_slice()),
            hashed_claim_code: copy_bytes(self.hashed_claim_code.as_slice()),
            bank_account: copy_bytes(self.bank_account.as_slice()),
            allocation_bp: self.allocation_bp,
        }
    }
}

impl InheritancePlan {
    /// A copy of this plan.
    pub fn copy(&self) -> (r: InheritancePlan)
        ensures
            r@ == self@,
    {
        let mut beneficiaries: Vec<Beneficiary> = Vec::new();
        let mut i: usize = 0;
        while i < self.beneficiaries.len()
            invariant
                i <= self.beneficiaries@.len(),
                beneficiaries@.len() == i,
                forall|j: int| 0 <= j < i ==> beneficiaries@[j]@ == self.beneficiaries@[j]@,
            decreases self.beneficiaries@.len() - i,
        {
            beneficiaries.push(self.beneficiaries[i].copy());
            i = i + 1;
        }
        let r = InheritancePlan {
            plan_name: self.plan_name.clone(),
            description: self.description.clone(),
            asset_type: self.asset_type.clone(),
            total_amount: self.total_amount,
            distribution_method: self.distribution_method,
            beneficiaries,
            total_allocation_bp: self.total_allocation_bp,
            owner: self.owner,
            created_at: self.created_at,
            is_active: self.is_active,
        };
        assert(r@.beneficiaries =~= self@.beneficiaries);
        r
    }
}

/// A recorded claim.
#[derive(Clone, Copy, Debug, PartialEq, Eq, Structural)]
pub struct ClaimRecord {
    pub plan_id: u64,
    pub beneficiary_index: u32,
    pub claimed_at: u64,
}

/// Identity-verification state of one user.
#[derive(Clone, Copy, Debug, PartialEq, Eq, Structural)]
pub struct KycStatus {
    pub submitted: bool,
    pub approved: bool,
    pub rejected: bool,
    pub submitted_at: u64,
    pub approved_at: u64,
    pub rejected_at: u64,
}

/// Emitted when a beneficiary joins a plan.
#[derive(Debug)]
pub struct BeneficiaryAddedEvent {
    pub plan_id: u64,
    pub hashed_email: Vec<u8>,
    pub allocation_bp: u32,
}

/// Emitted when a beneficiary leaves a plan.
#[derive(Clone, Copy, Debug, PartialEq, Eq, Structural)]
pub struct BeneficiaryRemovedEvent {
    pub plan_id: u64,
    pub index: u32,
    pub allocation_bp: u32,
}

/// Emitted when a plan is deactivated; the custody side returns the funds
/// to the owner.
#[derive(Clone, Copy, Debug, PartialEq, Eq, Structural)]
pub struct PlanDeactivatedEvent {
    pub plan_id: u64,
    pub owner: ActorId,
    pub total_amount: u64,
    pub deactivated_at: u64,
}

/// Emitted when a user's identity verification is approved.
#[derive(Clone, Copy, Debug, PartialEq, Eq, Structural)]
pub struct KycApprovedEvent {
    pub user: ActorId,
    pub approved_at: u64,
}

/// Emitted when a user's identity verification is rejected.
#[derive(Clone, Copy, Debug, PartialEq, Eq, Structural)]
pub struct KycRejectedEvent {
    pub user: ActorId,
    pub rejected_at: u64,
}

/// Emitted when the running logic is replaced.
#[derive(Debug)]
pub struct ContractUpgradedEvent {
    pub old_version: u32,
    pub new_version: u32,
    pub new_wasm_hash: Vec<u8>,
    pub admin: ActorId,
    pub upgraded_at: u64,
}

/// What an audit entry records.
#[derive(Clone, Copy, Debug, PartialEq, Eq, Structural)]
pub enum AuditAction {
    PlanCreated,
    BeneficiaryAdded,
    BeneficiaryRemoved,
    PlanDeactivated,
    ClaimSuccess,
    KycSubmitted,
    KycApproved,
    KycRejected,
    AdminInitialized,
    ContractUpgraded,
    ContractMigrated,
}

/// The kind of entity an audit entry is about.
#[derive(Clone, Copy, Debug, PartialEq, Eq, Structural)]
pub enum EntityType {
    Plan,
    User,
    Contract,
}

/// One entry of the append-only audit trail.
#[derive(Clone, Copy, Debug, PartialEq, Eq, Structural)]
pub struct AuditLogEntry {
    pub actor_id: Option<ActorId>,
    pub action: AuditAction,
    pub entity_id: Option<u64>,
    pub entity_type: Option<EntityType>,
    pub timestamp: u64,
}

/// Which operations require an approved identity verification.
#[derive(Clone, Copy, Debug, PartialEq, Eq, Structural)]
pub struct KycPolicy {
    pub gate_plan_creation: bool,
    pub gate_claims: bool,
}

} // verus!
