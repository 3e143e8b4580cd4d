//! Properties that relate several operations, or hold of every input.

use vstd::prelude::*;
use vstd::utf8::encode_utf8;
use crate::allocation::{all_positive, allocations_of, sum_bp, BeneficiaryData, MAX_BENEFICIARIES};
use crate::contract::{
    data_verdict, first_data_error, plan_inputs_verdict, supported_asset, text_fits,
    InheritanceContract, CONTRACT_VERSION,
};
use crate::digest::{claim_key_of, sha256_of, MAX_CLAIM_CODE};
use crate::error::InheritanceError;
use crate::model::{ActorId, ClaimRecord};

verus! {

/// The fields of a submitted beneficiary other than its share are
/// acceptable: name, e-mail and bank account given, texts short enough to
/// fingerprint, and a six-digit claim code.
pub open spec fn entry_fields_valid(b: BeneficiaryData) -> bool {
    &&& b.0@.len() > 0
    &&& b.1@.len() > 0
    &&& b.3@.len() > 0
    &&& text_fits(b.0@)
    &&& text_fits(b.1@)
    &&& b.2 <= MAX_CLAIM_CODE
}

/// With acceptable fields, the entries of a set are refused only for a zero
/// share.
proof fn lemma_entries_accepted(data: Seq<BeneficiaryData>)
    requires
        forall|i: int| 0 <= i < data.len() ==> entry_fields_valid(#[trigger] data[i]),
        all_positive(allocations_of(data)),
    ensures
        first_data_error(data) is Ok,
    decreases data.len(),
{
    if data.len() > 0 {
        let prefix = data.drop_last();
        assert forall|i: int| 0 <= i < prefix.len() implies entry_fields_valid(#[trigger] prefix[i]) by {
            assert(prefix[i] == data[i]);
        }
        assert(allocations_of(prefix) =~= allocations_of(data).drop_last());
        lemma_entries_accepted(prefix);
        assert(entry_fields_valid(data[data.len() - 1]));
        assert(allocations_of(data)[data.len() - 1] == data.last().4);
        assert(data_verdict(data.last()) is Ok);
    }
}

/// Plan creation and the allocation rule: when the plan's own fields and
/// each beneficiary's fields are acceptable and the owner may create plans,
/// creation succeeds exactly for one to ten beneficiaries with positive
/// shares summing to 10000 basis points; more than ten is refused with
/// `TooManyBeneficiaries`, none with `MissingRequiredField`, and another sum
/// of positive shares with `AllocationPercentageMismatch`.
pub proof fn law_creation_requires_full_allocation(
    registry: &InheritanceContract,
    owner: ActorId,
    plan_name: Seq<char>,
    description: Seq<char>,
    total_amount: u64,
    data: Seq<BeneficiaryData>,
)
    requires
        registry.wf(),
        registry.plans().len() < u64::MAX,
        !registry.policy().gate_plan_creation || registry.kyc_approved(owner),
        plan_inputs_verdict(plan_name, description, supported_asset(), total_amount) is Ok,
        forall|i: int| 0 <= i < data.len() ==> entry_fields_valid(#[trigger] data[i]),
    ensures
        registry.create_verdict(owner, plan_name, description, total_amount, data) is Ok <==> (1
            <= data.len() <= MAX_BENEFICIARIES && all_positive(allocations_of(data)) && sum_bp(
            allocations_of(data),
        ) == 10000),
        data.len() > MAX_BENEFICIARIES ==> registry.create_verdict(
            owner,
            plan_name,
            description,
            total_amount,
            data,
        ) == Err::<(), _>(InheritanceError::TooManyBeneficiaries),
        data.len() == 0 ==> registry.create_verdict(owner, plan_name, description, total_amount, data)
            == Err::<(), _>(InheritanceError::MissingRequiredField),
        1 <= data.len() <= MAX_BENEFICIARIES && all_positive(allocations_of(data)) && sum_bp(
            allocations_of(data),
        ) != 10000 ==> registry.create_verdict(owner, plan_name, description, total_amount, data)
            == Err::<(), _>(InheritanceError::AllocationPercentageMismatch),
{
    assert(allocations_of(data).len() == data.len());
    if all_positive(allocations_of(data)) {
        lemma_entries_accepted(data);
    }
}

/// At most one claim per plan and beneficiary: once a claim has been
/// recorded, the same credentials presented again on the same plan, by
/// anyone and at any later time, are refused with `AlreadyClaimed`, and
/// the ledger holds exactly one record under that claim's key.
pub proof fn law_claim_recorded_once(
    before: &InheritanceContract,
    after: &InheritanceContract,
    claimant: ActorId,
    plan_id: u64,
    email: Seq<char>,
    claim_code: u32,
    now: u64,
    again_by: ActorId,
    again_at: u64,
)
    requires
        before.wf(),
        after.wf(),
        before.claim_verdict(claimant, plan_id, email, claim_code, now) is Ok,
        after.claims() == before.claims().push(
            (
                claim_key_of(plan_id, sha256_of(encode_utf8(email))),
                before.claim_verdict(claimant, plan_id, email, claim_code, now)->Ok_0,
            ),
        ),
        after.plans() == before.plans(),
        after.kyc() == before.kyc(),
        after.policy() == before.policy(),
        now <= again_at,
        !after.policy().gate_claims || after.kyc_approved(again_by),
    ensures
        after.claim_verdict(again_by, plan_id, email, claim_code, again_at) == Err::<ClaimRecord, _>(
            InheritanceError::AlreadyClaimed,
        ),
        ({
            let key = claim_key_of(plan_id, sha256_of(encode_utf8(email)));
            &&& after.has_claim_key(key)
            &&& forall|i: int, j: int|
                0 <= i < after.claims().len() && 0 <= j < after.claims().len() && after.claims()[i].0
                    == key && after.claims()[j].0 == key ==> i == j
        }),
{
    let key = claim_key_of(plan_id, sha256_of(encode_utf8(email)));
    let n = before.claims().len();
    assert(after.claims()[n as int].0 == key);
    assert(after.has_claim_key(key));
    let p = before.plan(plan_id)->0;
    assert(after.plan(plan_id) == before.plan(plan_id));
    assert(crate::eligibility::claimable(p.distribution_method, p.created_at, again_at));
}

/// Migration is idempotent: on an outdated version record the first
/// migration by the administrator succeeds and brings the record to this
/// logic's version; a second one right after is refused with
/// `MigrationNotRequired`.
pub proof fn law_migrate_idempotent(
    before: &InheritanceContract,
    after: &InheritanceContract,
    admin: ActorId,
)
    requires
        before.wf(),
        before.admin() == Some(admin),
        before.stored_version() matches Some(v) ==> v < CONTRACT_VERSION,
        after.admin() == before.admin(),
        after.stored_version() == Some(CONTRACT_VERSION),
    ensures
        before.migrate_verdict(admin) is Ok,
        after.migrate_verdict(admin) == Err::<(), _>(InheritanceError::MigrationNotRequired),
{
}

} // verus!
