//! The plan registry, claim ledger, identity-verification gate,
//! administrator authority, audit trail and version manager, held as one
//! state whose invariant every operation preserves.

use std::collections::HashMap;
use vstd::prelude::*;
use vstd::std_specs::hash::group_hash_axioms;
use vstd::string::*;
use vstd::utf8::encode_utf8;
use crate::allocation::{
    add_verdict, allocations_of, all_positive, creation_set_verdict, lemma_sum_bp_bound, lemma_sum_bp_push, lemma_sum_bp_swap_remove, lemma_sum_bp_take, sum_bp,
    validate_add, BeneficiaryData, FULL_ALLOCATION_BP, MAX_BENEFICIARIES,
};
use crate::digest::{
    claim_code_digits, claim_key, claim_key_of, sha256, sha256_of, DIGEST_LEN, MAX_CLAIM_CODE,
    MAX_HASH_INPUT,
};
use crate::eligibility::{claimable, is_claim_time_valid, DistributionMethod};
use crate::error::InheritanceError;
use crate::text::{bytes_equal, text_equals};
use crate::model::{
    ActorId, AuditAction, Beneficiary, BeneficiaryAddedEvent, BeneficiaryInput,
    BeneficiaryRemovedEvent, BeneficiaryView, ClaimRecord, ContractUpgradedEvent, PlanDeactivatedEvent, plan_allocations, AuditLogEntry, EntityType, InheritancePlan, KycApprovedEvent, KycPolicy,
    KycRejectedEvent, KycStatus, PlanView, plan_invariant,
};

verus! {

broadcast use group_hash_axioms;

/// Version of the logic this library implements.
pub const CONTRACT_VERSION: u32 = 1;

/// Longest plan description, in characters.
pub const MAX_DESCRIPTION_CHARS: usize = 500;

/// Longest name or e-mail address, in bytes of UTF-8.
pub const MAX_TEXT_BYTES: usize = 4096;

/// The one supported asset.
pub open spec fn supported_asset() -> Seq<char> {
    "USDC"@
}

/// Whether a text is short enough to be fingerprinted.
pub open spec fn text_fits(s: Seq<char>) -> bool {
    encode_utf8(s).len() <= MAX_TEXT_BYTES
}

/// Verdict on the plain fields of a new plan.
pub open spec fn plan_inputs_verdict(
    name: Seq<char>,
    description: Seq<char>,
    asset: Seq<char>,
    total_amount: u64,
) -> Result<(), InheritanceError> {
    if name.len() == 0 {
        Err(InheritanceError::MissingRequiredField)
    } else if description.len() > MAX_DESCRIPTION_CHARS {
        Err(InheritanceError::DescriptionTooLong)
    } else if asset != supported_asset() {
        Err(InheritanceError::InvalidAssetType)
    } else if total_amount == 0 {
        Err(InheritanceError::InvalidTotalAmount)
    } else {
        Ok(())
    }
}

/// Verdict on one submitted beneficiary.
pub open spec fn beneficiary_verdict(
    name: Seq<char>,
    email: Seq<char>,
    code: u32,
    bank: Seq<u8>,
    bp: u32,
) -> Result<(), InheritanceError> {
    if name.len() == 0 || email.len() == 0 || bank.len() == 0 || !text_fits(name) || !text_fits(
        email,
    ) {
        Err(InheritanceError::InvalidBeneficiaryData)
    } else if bp == 0 {
        Err(InheritanceError::InvalidAllocation)
    } else if code > crate::digest::MAX_CLAIM_CODE {
        Err(InheritanceError::InvalidClaimCodeRange)
    } else {
        Ok(())
    }
}

/// A submitted beneficiary as stored: name, e-mail and claim code replaced
/// by their digests.
pub open spec fn hashed_beneficiary(
    name: Seq<char>,
    email: Seq<char>,
    code: u32,
    bank: Seq<u8>,
    bp: u32,
) -> BeneficiaryView {
    BeneficiaryView {
        hashed_full_name: sha256_of(encode_utf8(name)),
        hashed_email: sha256_of(encode_utf8(email)),
        hashed_claim_code: sha256_of(claim_code_digits(code)),
        bank_account: bank,
        allocation_bp: bp,
    }
}

/// Verdict on one entry of a creation set.
pub open spec fn data_verdict(b: BeneficiaryData) -> Result<(), InheritanceError> {
    beneficiary_verdict(b.0@, b.1@, b.2, b.3@, b.4)
}

/// An entry of a creation set as stored.
pub open spec fn hashed_data(b: BeneficiaryData) -> BeneficiaryView {
    hashed_beneficiary(b.0@, b.1@, b.2, b.3@, b.4)
}

/// The first refusal among the entries of a creation set, in order.
pub open spec fn first_data_error(s: Seq<BeneficiaryData>) -> Result<(), InheritanceError>
    decreases s.len(),
{
    if s.len() == 0 {
        Ok(())
    } else {
        match first_data_error(s.drop_last()) {
            Err(e) => Err(e),
            Ok(_) => data_verdict(s.last()),
        }
    }
}

/// Once a prefix of a creation set is refused, the whole set is refused
/// for the same reason.
proof fn lemma_first_error_extends(s: Seq<BeneficiaryData>, i: int)
    requires
        0 <= i <= s.len(),
        first_data_error(s.take(i)) is Err,
    ensures
        first_data_error(s) == first_data_error(s.take(i)),
    decreases s.len() - i,
{
    if i == s.len() {
        assert(s.take(i) =~= s);
    } else {
        assert(s.take(i + 1).drop_last() =~= s.take(i));
        lemma_first_error_extends(s, i + 1);
    }
}

/// Whether a stored beneficiary carries the given credential digests.
pub open spec fn credential_match(b: BeneficiaryView, hashed_email: Seq<u8>, hashed_code: Seq<u8>) -> bool {
    b.hashed_email == hashed_email && b.hashed_claim_code == hashed_code
}

/// Whether `i` is the first beneficiary carrying the given credential
/// digests.
pub open spec fn is_first_match(
    bs: Seq<BeneficiaryView>,
    hashed_email: Seq<u8>,
    hashed_code: Seq<u8>,
    i: int,
) -> bool {
    &&& 0 <= i < bs.len()
    &&& credential_match(bs[i], hashed_email, hashed_code)
    &&& forall|j: int| 0 <= j < i ==> !credential_match(#[trigger] bs[j], hashed_email, hashed_code)
}

/// Finds the first beneficiary carrying the given credential digests.
pub fn find_beneficiary(bens: &Vec<Beneficiary>, hashed_email: &[u8], hashed_code: &[u8]) -> (r: Option<usize>)
    ensures
        r matches Some(i) ==> is_first_match(
            bens@.map_values(|b: Beneficiary| b@),
            hashed_email@,
            hashed_code@,
            i as int,
        ),
        r is None ==> forall|i: int|
            0 <= i < bens@.len() ==> !credential_match(#[trigger] bens@[i]@, hashed_email@, hashed_code@),
{
    let ghost views = bens@.map_values(|b: Beneficiary| b@);
    let mut i: usize = 0;
    while i < bens.len()
        invariant
            i <= bens@.len(),
            views == bens@.map_values(|b: Beneficiary| b@),
            forall|j: int| 0 <= j < i ==> !credential_match(#[trigger] bens@[j]@, hashed_email@, hashed_code@),
        decreases bens@.len() - i,
    {
        if bytes_equal(bens[i].hashed_email.as_slice(), hashed_email) && bytes_equal(
            bens[i].hashed_claim_code.as_slice(),
            hashed_code,
        ) {
            proof {
                assert forall|j: int| 0 <= j < i implies !credential_match(#[trigger] views[j], hashed_email@, hashed_code@) by {
                    assert(views[j] == bens@[j]@);
                }
            }
            return Some(i);
        }
        i = i + 1;
    }
    None
}

/// Whether `id` occurs in `ids`.
fn contains_id(ids: &Vec<u64>, id: u64) -> (r: bool)
    ensures
        r == ids@.contains(id),
{
    let mut i: usize = 0;
    while i < ids.len()
        invariant
            i <= ids@.len(),
            forall|j: int| 0 <= j < i ==> ids@[j] != id,
        decreases ids@.len() - i,
    {
        if ids[i] == id {
            return true;
        }
        i = i + 1;
    }
    false
}

/// Which plans a listing returns.
#[derive(Clone, Copy, Debug, PartialEq, Eq, Structural)]
pub enum PlanFilter {
    All,
    Active,
    OwnedBy(ActorId),
    ActiveOwnedBy(ActorId),
    InactiveOwnedBy(ActorId),
}

/// Whether a listing with filter `f` returns plan `p`.
pub open spec fn selects(f: PlanFilter, p: PlanView) -> bool {
    match f {
        PlanFilter::All => true,
        PlanFilter::Active => p.is_active,
        PlanFilter::OwnedBy(o) => p.owner == o,
        PlanFilter::ActiveOwnedBy(o) => p.owner == o && p.is_active,
        PlanFilter::InactiveOwnedBy(o) => p.owner == o && !p.is_active,
    }
}

/// The plans that filter `f` returns, in order of creation.
pub open spec fn select(plans: Seq<PlanView>, f: PlanFilter) -> Seq<PlanView>
    decreases plans.len(),
{
    if plans.len() == 0 {
        Seq::empty()
    } else {
        let rest = select(plans.drop_last(), f);
        if selects(f, plans.last()) {
            rest.push(plans.last())
        } else {
            rest
        }
    }
}

/// The plans named by `ids`, in that order, skipping unknown identifiers
/// and, when `owner` is given, plans of other owners.
pub open spec fn plans_by_ids(plans: Seq<PlanView>, ids: Seq<u64>, owner: Option<ActorId>) -> Seq<PlanView>
    decreases ids.len(),
{
    if ids.len() == 0 {
        Seq::empty()
    } else {
        let rest = plans_by_ids(plans, ids.drop_last(), owner);
        match plan_at(plans, ids.last()) {
            Some(p) => if owner is Some && p.owner != owner->0 {
                rest
            } else {
                rest.push(p)
            },
            None => rest,
        }
    }
}

/// Views of a sequence of plans.
pub open spec fn plan_views(v: Seq<InheritancePlan>) -> Seq<PlanView> {
    v.map_values(|p: InheritancePlan| p@)
}

/// `s` with position `i` filled by its last element and the last dropped.
pub open spec fn swap_removed<T>(s: Seq<T>, i: int) -> Seq<T> {
    s.update(i, s.last()).drop_last()
}

/// A claim in the ledger, under its key.
struct ClaimEntry {
    key: Vec<u8>,
    record: ClaimRecord,
}

/// The whole shared state.
pub struct InheritanceContract {
    plans: Vec<InheritancePlan>,
    claims: Vec<ClaimEntry>,
    claimed_plan_ids: Vec<u64>,
    deactivated_plan_ids: Vec<u64>,
    kyc: HashMap<u64, KycStatus>,
    admin: Option<ActorId>,
    version: Option<u32>,
    audit_log: Vec<AuditLogEntry>,
    kyc_policy: KycPolicy,
}

/// Whether a sequence holds no value twice.
pub open spec fn no_duplicates(s: Seq<u64>) -> bool {
    forall|i: int, j: int| 0 <= i < s.len() && 0 <= j < s.len() && i != j ==> s[i] != s[j]
}

/// The plan with identifier `id` among `plans`, if there is one.
pub open spec fn plan_at(plans: Seq<PlanView>, id: u64) -> Option<PlanView> {
    if 1 <= id <= plans.len() {
        Some(plans[id - 1])
    } else {
        None
    }
}

/// Whether plan `id` exists among `plans` and is deactivated.
pub open spec fn inactive_at(plans: Seq<PlanView>, id: u64) -> bool {
    match plan_at(plans, id) {
        Some(p) => !p.is_active,
        None => false,
    }
}

/// What holds of the registry at all times: every plan keeps its
/// allocation invariant, claim keys are unique, the claimed index names
/// existing plans once each, and the deactivated index names exactly the
/// deactivated plans, once each.
pub open spec fn state_invariant(
    plans: Seq<PlanView>,
    claims: Seq<(Seq<u8>, ClaimRecord)>,
    claimed: Seq<u64>,
    deactivated: Seq<u64>,
) -> bool {
    &&& forall|i: int| 0 <= i < plans.len() ==> plan_invariant(#[trigger] plans[i])
    &&& forall|i: int, j: int|
        0 <= i < claims.len() && 0 <= j < claims.len() && i != j ==> #[trigger] claims[i].0
            != #[trigger] claims[j].0
    &&& no_duplicates(claimed)
    &&& forall|i: int| 0 <= i < claimed.len() ==> #[trigger] plan_at(plans, claimed[i]) is Some
    &&& no_duplicates(deactivated)
    &&& forall|i: int| 0 <= i < deactivated.len() ==> inactive_at(plans, #[trigger] deactivated[i])
    &&& forall|id: u64| #[trigger] inactive_at(plans, id) ==> deactivated.contains(id)
}

/// Appending an active, well-formed plan keeps the invariant.
proof fn lemma_push_plan(
    plans: Seq<PlanView>,
    claims: Seq<(Seq<u8>, ClaimRecord)>,
    claimed: Seq<u64>,
    deactivated: Seq<u64>,
    x: PlanView,
)
    requires
        state_invariant(plans, claims, claimed, deactivated),
        plan_invariant(x),
        x.is_active,
    ensures
        state_invariant(plans.push(x), claims, claimed, deactivated),
{
    let np = plans.push(x);
    assert forall|id: u64| 1 <= id <= plans.len() implies plan_at(np, id) == plan_at(plans, id) by {}
    assert forall|i: int| 0 <= i < np.len() implies plan_invariant(#[trigger] np[i]) by {
        if i < plans.len() {
            assert(np[i] == plans[i]);
        }
    }
    assert forall|i: int| 0 <= i < claimed.len() implies #[trigger] plan_at(np, claimed[i]) is Some by {
        assert(plan_at(plans, claimed[i]) is Some);
    }
    assert forall|i: int| 0 <= i < deactivated.len() implies inactive_at(np, #[trigger] deactivated[i]) by {
        assert(inactive_at(plans, deactivated[i]));
    }
    assert forall|id: u64| #[trigger] inactive_at(np, id) implies deactivated.contains(id) by {
        if id <= plans.len() {
            assert(inactive_at(plans, id));
        }
    }
}

/// Replacing a plan by a well-formed one of the same status keeps the
/// invariant.
proof fn lemma_update_plan(
    plans: Seq<PlanView>,
    claims: Seq<(Seq<u8>, ClaimRecord)>,
    claimed: Seq<u64>,
    deactivated: Seq<u64>,
    i: int,
    x: PlanView,
)
    requires
        state_invariant(plans, claims, claimed, deactivated),
        0 <= i < plans.len(),
        plan_invariant(x),
        x.is_active == plans[i].is_active,
    ensures
        state_invariant(plans.update(i, x), claims, claimed, deactivated),
{
    let np = plans.update(i, x);
    assert forall|id: u64| #[trigger] inactive_at(np, id) == inactive_at(plans, id) by {}
    assert forall|id: u64| #[trigger] plan_at(np, id) is Some == plan_at(plans, id) is Some by {}
    assert forall|j: int| 0 <= j < np.len() implies plan_invariant(#[trigger] np[j]) by {
        if j != i {
            assert(np[j] == plans[j]);
        }
    }
    assert forall|j: int| 0 <= j < claimed.len() implies #[trigger] plan_at(np, claimed[j]) is Some by {
        assert(plan_at(plans, claimed[j]) is Some);
    }
    assert forall|j: int| 0 <= j < deactivated.len() implies inactive_at(np, #[trigger] deactivated[j]) by {
        assert(inactive_at(plans, deactivated[j]));
    }
    assert forall|id: u64| #[trigger] inactive_at(np, id) implies deactivated.contains(id) by {
        assert(inactive_at(plans, id));
    }
}

/// Deactivating an active plan and indexing it keeps the invariant.
proof fn lemma_deactivate_plan(
    plans: Seq<PlanView>,
    claims: Seq<(Seq<u8>, ClaimRecord)>,
    claimed: Seq<u64>,
    deactivated: Seq<u64>,
    id: u64,
)
    requires
        state_invariant(plans, claims, claimed, deactivated),
        1 <= id <= plans.len(),
        plans[id - 1].is_active,
    ensures
        state_invariant(
            plans.update(id - 1, PlanView { is_active: false, ..plans[id - 1] }),
            claims,
            claimed,
            deactivated.push(id),
        ),
{
    let x = PlanView { is_active: false, ..plans[id - 1] };
    let np = plans.update(id - 1, x);
    let nd = deactivated.push(id);
    assert(plan_allocations(x) == plan_allocations(plans[id - 1]));
    assert forall|j: int| 0 <= j < np.len() implies plan_invariant(#[trigger] np[j]) by {
        if j != id - 1 {
            assert(np[j] == plans[j]);
        } else {
            assert(plan_invariant(plans[id - 1]));
        }
    }
    assert(!deactivated.contains(id)) by {
        if deactivated.contains(id) {
            let k = choose|k: int| 0 <= k < deactivated.len() && deactivated[k] == id;
            assert(inactive_at(plans, deactivated[k]));
        }
    }
    assert forall|a: int, b: int| 0 <= a < nd.len() && 0 <= b < nd.len() && a != b implies nd[a] != nd[b] by {
        if a < deactivated.len() && b < deactivated.len() {
        } else if a < deactivated.len() {
            assert(deactivated.contains(nd[a]));
        } else if b < deactivated.len() {
            assert(deactivated.contains(nd[b]));
        }
    }
    assert forall|j: int| 0 <= j < claimed.len() implies #[trigger] plan_at(np, claimed[j]) is Some by {
        assert(plan_at(plans, claimed[j]) is Some);
    }
    assert forall|j: int| 0 <= j < nd.len() implies inactive_at(np, #[trigger] nd[j]) by {
        if j < deactivated.len() {
            assert(inactive_at(plans, deactivated[j]));
        }
    }
    assert forall|k: u64| #[trigger] inactive_at(np, k) implies nd.contains(k) by {
        if k == id {
            assert(nd[nd.len() - 1] == k);
        } else {
            assert(inactive_at(plans, k));
            let w = choose|w: int| 0 <= w < deactivated.len() && deactivated[w] == k;
            assert(nd[w] == k);
        }
    }
}

/// Recording a claim under a fresh key, and indexing its plan once, keeps
/// the invariant.
proof fn lemma_record_claim(
    plans: Seq<PlanView>,
    claims: Seq<(Seq<u8>, ClaimRecord)>,
    claimed: Seq<u64>,
    deactivated: Seq<u64>,
    key: Seq<u8>,
    rec: ClaimRecord,
)
    requires
        state_invariant(plans, claims, claimed, deactivated),
        forall|i: int| 0 <= i < claims.len() ==> #[trigger] claims[i].0 != key,
        plan_at(plans, rec.plan_id) is Some,
    ensures
        state_invariant(
            plans,
            claims.push((key, rec)),
            if claimed.contains(rec.plan_id) {
                claimed
            } else {
                claimed.push(rec.plan_id)
            },
            deactivated,
        ),
{
    let nc = claims.push((key, rec));
    assert forall|i: int, j: int|
        0 <= i < nc.len() && 0 <= j < nc.len() && i != j implies #[trigger] nc[i].0
            != #[trigger] nc[j].0 by {
        if i < claims.len() && j < claims.len() {
            assert(nc[i] == claims[i] && nc[j] == claims[j]);
        } else if i < claims.len() {
            assert(nc[i] == claims[i]);
        } else if j < claims.len() {
            assert(nc[j] == claims[j]);
        }
    }
    if !claimed.contains(rec.plan_id) {
        let nl = claimed.push(rec.plan_id);
        assert forall|a: int, b: int| 0 <= a < nl.len() && 0 <= b < nl.len() && a != b implies nl[a] != nl[b] by {
            if a < claimed.len() && b < claimed.len() {
            } else if a < claimed.len() {
                assert(claimed.contains(nl[a]));
            } else if b < claimed.len() {
                assert(claimed.contains(nl[b]));
            }
        }
        assert forall|j: int| 0 <= j < nl.len() implies #[trigger] plan_at(plans, nl[j]) is Some by {
            if j < claimed.len() {
                assert(nl[j] == claimed[j]);
            }
        }
    }
}

impl InheritanceContract {
    /// The plans, in order of creation; plan `id` is at position `id - 1`.
    pub closed spec fn plans(&self) -> Seq<PlanView> {
        self.plans@.map_values(|p: InheritancePlan| p@)
    }

    /// The claim ledger: each key with its record, in order of recording.
    pub closed spec fn claims(&self) -> Seq<(Seq<u8>, ClaimRecord)> {
        self.claims@.map_values(|c: ClaimEntry| (c.key@, c.record))
    }

    /// Identifiers of plans with at least one claim, in order of first claim.
    pub closed spec fn claimed_ids(&self) -> Seq<u64> {
        self.claimed_plan_ids@
    }

    /// Identifiers of deactivated plans, in order of deactivation.
    pub closed spec fn deactivated_ids(&self) -> Seq<u64> {
        self.deactivated_plan_ids@
    }

    /// Identity-verification records by user.
    pub closed spec fn kyc(&self) -> Map<ActorId, KycStatus> {
        self.kyc@
    }

    /// The administrator, once set.
    pub closed spec fn admin(&self) -> Option<ActorId> {
        self.admin
    }

    /// The stored version record, if any.
    pub closed spec fn stored_version(&self) -> Option<u32> {
        self.version
    }

    /// The audit trail, oldest first.
    pub closed spec fn audit(&self) -> Seq<AuditLogEntry> {
        self.audit_log@
    }

    /// Which operations need an approved identity verification.
    pub closed spec fn policy(&self) -> KycPolicy {
        self.kyc_policy
    }

    /// The plan with identifier `id`, if there is one.
    pub open spec fn plan(&self, id: u64) -> Option<PlanView> {
        plan_at(self.plans(), id)
    }

    /// Whether plan `id` exists and is deactivated.
    pub open spec fn plan_inactive(&self, id: u64) -> bool {
        inactive_at(self.plans(), id)
    }

    /// Whether a claim is recorded under `key`.
    pub open spec fn has_claim_key(&self, key: Seq<u8>) -> bool {
        exists|i: int| 0 <= i < self.claims().len() && #[trigger] self.claims()[i].0 == key
    }

    /// Whether the user's identity verification is approved.
    pub open spec fn kyc_approved(&self, user: ActorId) -> bool {
        self.kyc().contains_key(user) && self.kyc()[user].approved
    }

    /// The version reported to callers: the stored one, else the built-in.
    pub open spec fn current_version(&self) -> u32 {
        match self.stored_version() {
            Some(v) => v,
            None => CONTRACT_VERSION,
        }
    }

    /// The state invariant.
    pub open spec fn wf(&self) -> bool {
        state_invariant(self.plans(), self.claims(), self.claimed_ids(), self.deactivated_ids())
    }

    /// Verdict of the administrator check on `caller`.
    pub open spec fn admin_verdict(&self, caller: ActorId) -> Result<(), InheritanceError> {
        match self.admin() {
            None => Err(InheritanceError::AdminNotSet),
            Some(a) => if a == caller {
                Ok(())
            } else {
                Err(InheritanceError::NotAdmin)
            },
        }
    }

    /// An empty registry with the given identity-verification policy.
    pub fn with_kyc_policy(policy: KycPolicy) -> (r: InheritanceContract)
        ensures
            r.wf(),
            r.plans().len() == 0,
            r.claims().len() == 0,
            r.claimed_ids().len() == 0,
            r.deactivated_ids().len() == 0,
            r.kyc() == Map::<ActorId, KycStatus>::empty(),
            r.admin() is None,
            r.stored_version() is None,
            r.audit().len() == 0,
            r.policy() == policy,
    {
        InheritanceContract {
            plans: Vec::new(),
            claims: Vec::new(),
            claimed_plan_ids: Vec::new(),
            deactivated_plan_ids: Vec::new(),
            kyc: HashMap::new(),
            admin: None,
            version: None,
            audit_log: Vec::new(),
            kyc_policy: policy,
        }
    }

    /// An empty registry where no operation needs identity verification.
    pub fn new() -> (r: InheritanceContract)
        ensures
            r.wf(),
            r.plans().len() == 0,
            r.claims().len() == 0,
            r.claimed_ids().len() == 0,
            r.deactivated_ids().len() == 0,
            r.kyc() == Map::<ActorId, KycStatus>::empty(),
            r.admin() is None,
            r.stored_version() is None,
            r.audit().len() == 0,
            r.policy() == (KycPolicy { gate_plan_creation: false, gate_claims: false }),
    {
        Self::with_kyc_policy(KycPolicy { gate_plan_creation: false, gate_claims: false })
    }

    /// The same state with the version record read back from storage written
    /// by an earlier deployment.
    pub fn with_stored_version(self, stored: u32) -> (r: InheritanceContract)
        requires
            self.wf(),
        ensures
            r.wf(),
            r.stored_version() == Some(stored),
            r.plans() == self.plans(),
            r.claims() == self.claims(),
            r.claimed_ids() == self.claimed_ids(),
            r.deactivated_ids() == self.deactivated_ids(),
            r.kyc() == self.kyc(),
            r.admin() == self.admin(),
            r.audit() == self.audit(),
            r.policy() == self.policy(),
    {
        let mut r = self;
        r.version = Some(stored);
        r
    }

    /// Appends an entry to the audit trail.
    fn log(&mut self, actor_id: Option<ActorId>, action: AuditAction, entity_id: Option<u64>, entity_type: Option<EntityType>, timestamp: u64)
        ensures
            final(self).audit() == old(self).audit().push(
                AuditLogEntry { actor_id, action, entity_id, entity_type, timestamp },
            ),
            final(self).plans@ == old(self).plans@,
            final(self).claims@ == old(self).claims@,
            final(self).claimed_plan_ids@ == old(self).claimed_plan_ids@,
            final(self).deactivated_plan_ids@ == old(self).deactivated_plan_ids@,
            final(self).kyc@ == old(self).kyc@,
            final(self).admin == old(self).admin,
            final(self).version == old(self).version,
            final(self).kyc_policy == old(self).kyc_policy,
    {
        self.audit_log.push(AuditLogEntry { actor_id, action, entity_id, entity_type, timestamp });
    }

    /// The administrator, once set.
    pub fn get_admin(&self) -> (r: Option<ActorId>)
        ensures
            r == self.admin(),
    {
        self.admin
    }

    /// Checks that `caller` is the administrator.
    pub fn require_admin(&self, caller: ActorId) -> (r: Result<(), InheritanceError>)
        ensures
            r == self.admin_verdict(caller),
    {
        match self.admin {
            None => Err(InheritanceError::AdminNotSet),
            Some(a) => if a == caller {
                Ok(())
            } else {
                Err(InheritanceError::NotAdmin)
            },
        }
    }

    /// Sets the administrator, once.
    pub fn initialize_admin(&mut self, admin: ActorId, now: u64) -> (r: Result<(), InheritanceError>)
        requires
            old(self).wf(),
        ensures
            final(self).wf(),
            r == (if old(self).admin() is Some {
                Err(InheritanceError::AdminAlreadyInitialized)
            } else {
                Ok(())
            }),
            r is Ok ==> final(self).admin() == Some(admin) && final(self).audit() == old(self).audit().push(
                AuditLogEntry {
                    actor_id: Some(admin),
                    action: AuditAction::AdminInitialized,
                    entity_id: Some(admin),
                    entity_type: Some(EntityType::User),
                    timestamp: now,
                },
            ),
            r is Err ==> final(self).admin() == old(self).admin() && final(self).audit() == old(self).audit(),
            final(self).plans() == old(self).plans(),
            final(self).claims() == old(self).claims(),
            final(self).claimed_ids() == old(self).claimed_ids(),
            final(self).deactivated_ids() == old(self).deactivated_ids(),
            final(self).kyc() == old(self).kyc(),
            final(self).stored_version() == old(self).stored_version(),
            final(self).policy() == old(self).policy(),
    {
        if self.admin.is_some() {
            return Err(InheritanceError::AdminAlreadyInitialized);
        }
        self.admin = Some(admin);
        self.log(Some(admin), AuditAction::AdminInitialized, Some(admin), Some(EntityType::User), now);
        Ok(())
    }

    /// The user's identity-verification record, if any.
    pub fn kyc_status(&self, user: ActorId) -> (r: Option<KycStatus>)
        ensures
            r == (if self.kyc().contains_key(user) {
                Some(self.kyc()[user])
            } else {
                None
            }),
    {
        match self.kyc.get(&user) {
            Some(s) => Some(*s),
            None => None,
        }
    }

    /// Whether the user's identity verification is approved.
    pub fn is_kyc_approved(&self, user: ActorId) -> (r: bool)
        ensures
            r == self.kyc_approved(user),
    {
        match self.kyc.get(&user) {
            Some(s) => s.approved,
            None => false,
        }
    }

    /// Verdict of `submit_kyc`.
    pub open spec fn submit_kyc_verdict(&self, user: ActorId) -> Result<(), InheritanceError> {
        if self.kyc_approved(user) {
            Err(InheritanceError::KycAlreadyApproved)
        } else {
            Ok(())
        }
    }

    /// Records that the user submitted identity documents.
    pub fn submit_kyc(&mut self, user: ActorId, now: u64) -> (r: Result<(), InheritanceError>)
        requires
            old(self).wf(),
        ensures
            final(self).wf(),
            r == old(self).submit_kyc_verdict(user),
            r is Ok ==> final(self).kyc() == old(self).kyc().insert(
                user,
                if old(self).kyc().contains_key(user) {
                    KycStatus { submitted: true, submitted_at: now, ..old(self).kyc()[user] }
                } else {
                    KycStatus {
                        submitted: true,
                        approved: false,
                        rejected: false,
                        submitted_at: now,
                        approved_at: 0,
                        rejected_at: 0,
                    }
                },
            ) && final(self).audit() == old(self).audit().push(
                AuditLogEntry {
                    actor_id: Some(user),
                    action: AuditAction::KycSubmitted,
                    entity_id: Some(user),
                    entity_type: Some(EntityType::User),
                    timestamp: now,
                },
            ),
            r is Err ==> final(self).kyc() == old(self).kyc() && final(self).audit() == old(self).audit(),
            final(self).plans() == old(self).plans(),
            final(self).claims() == old(self).claims(),
            final(self).claimed_ids() == old(self).claimed_ids(),
            final(self).deactivated_ids() == old(self).deactivated_ids(),
            final(self).admin() == old(self).admin(),
            final(self).stored_version() == old(self).stored_version(),
            final(self).policy() == old(self).policy(),
    {
        let mut status = match self.kyc.get(&user) {
            Some(s) => *s,
            None => KycStatus {
                submitted: false,
                approved: false,
                rejected: false,
                submitted_at: 0,
                approved_at: 0,
                rejected_at: 0,
            },
        };
        if status.approved {
            return Err(InheritanceError::KycAlreadyApproved);
        }
        status.submitted = true;
        status.submitted_at = now;
        self.kyc.insert(user, status);
        self.log(Some(user), AuditAction::KycSubmitted, Some(user), Some(EntityType::User), now);
        Ok(())
    }

    /// Verdict of `approve_kyc`.
    pub open spec fn approve_kyc_verdict(&self, admin: ActorId, user: ActorId) -> Result<(), InheritanceError> {
        if self.admin_verdict(admin) is Err {
            self.admin_verdict(admin)
        } else if !self.kyc().contains_key(user) || !self.kyc()[user].submitted {
            Err(InheritanceError::KycNotSubmitted)
        } else if self.kyc()[user].approved {
            Err(InheritanceError::KycAlreadyApproved)
        } else {
            Ok(())
        }
    }

    /// Approves a user's identity verification (administrator only).
    pub fn approve_kyc(&mut self, admin: ActorId, user: ActorId, now: u64) -> (r: Result<KycApprovedEvent, InheritanceError>)
        requires
            old(self).wf(),
        ensures
            final(self).wf(),
            r is Ok <==> old(self).approve_kyc_verdict(admin, user) is Ok,
            r matches Err(e) ==> old(self).approve_kyc_verdict(admin, user) == Err::<(), _>(e),
            r is Ok ==> r == Ok::<_, InheritanceError>(KycApprovedEvent { user, approved_at: now })
                && final(self).kyc() == old(self).kyc().insert(
                user,
                KycStatus { approved: true, approved_at: now, ..old(self).kyc()[user] },
            ) && final(self).audit() == old(self).audit().push(
                AuditLogEntry {
                    actor_id: Some(admin),
                    action: AuditAction::KycApproved,
                    entity_id: Some(user),
                    entity_type: Some(EntityType::User),
                    timestamp: now,
                },
            ),
            r is Err ==> final(self).kyc() == old(self).kyc() && final(self).audit() == old(self).audit(),
            final(self).plans() == old(self).plans(),
            final(self).claims() == old(self).claims(),
            final(self).claimed_ids() == old(self).claimed_ids(),
            final(self).deactivated_ids() == old(self).deactivated_ids(),
            final(self).admin() == old(self).admin(),
            final(self).stored_version() == old(self).stored_version(),
            final(self).policy() == old(self).policy(),
    {
        if let Err(e) = self.require_admin(admin) {
            return Err(e);
        }
        let mut status = match self.kyc.get(&user) {
            Some(s) => *s,
            None => {
                return Err(InheritanceError::KycNotSubmitted);
            },
        };
        if !status.submitted {
            return Err(InheritanceError::KycNotSubmitted);
        }
        if status.approved {
            return Err(InheritanceError::KycAlreadyApproved);
        }
        status.approved = true;
        status.approved_at = now;
        self.kyc.insert(user, status);
        self.log(Some(admin), AuditAction::KycApproved, Some(user), Some(EntityType::User), now);
        Ok(KycApprovedEvent { user, approved_at: now })
    }

    /// Verdict of `reject_kyc`.
    pub open spec fn reject_kyc_verdict(&self, admin: ActorId, user: ActorId) -> Result<(), InheritanceError> {
        if self.admin_verdict(admin) is Err {
            self.admin_verdict(admin)
        } else if !self.kyc().contains_key(user) || !self.kyc()[user].submitted {
            Err(InheritanceError::KycNotSubmitted)
        } else if self.kyc()[user].rejected {
            Err(InheritanceError::KycAlreadyRejected)
        } else {
            Ok(())
        }
    }

    /// Rejects a user's identity verification (administrator only).
    pub fn reject_kyc(&mut self, admin: ActorId, user: ActorId, now: u64) -> (r: Result<KycRejectedEvent, InheritanceError>)
        requires
            old(self).wf(),
        ensures
            final(self).wf(),
            r is Ok <==> old(self).reject_kyc_verdict(admin, user) is Ok,
            r matches Err(e) ==> old(self).reject_kyc_verdict(admin, user) == Err::<(), _>(e),
            r is Ok ==> r == Ok::<_, InheritanceError>(KycRejectedEvent { user, rejected_at: now })
                && final(self).kyc() == old(self).kyc().insert(
                user,
                KycStatus { rejected: true, rejected_at: now, ..old(self).kyc()[user] },
            ) && final(self).audit() == old(self).audit().push(
                AuditLogEntry {
                    actor_id: Some(admin),
                    action: AuditAction::KycRejected,
                    entity_id: Some(user),
                    entity_type: Some(EntityType::User),
                    timestamp: now,
                },
            ),
            r is Err ==> final(self).kyc() == old(self).kyc() && final(self).audit() == old(self).audit(),
            final(self).plans() == old(self).plans(),
            final(self).claims() == old(self).claims(),
            final(self).claimed_ids() == old(self).claimed_ids(),
            final(self).deactivated_ids() == old(self).deactivated_ids(),
            final(self).admin() == old(self).admin(),
            final(self).stored_version() == old(self).stored_version(),
            final(self).policy() == old(self).policy(),
    {
        if let Err(e) = self.require_admin(admin) {
            return Err(e);
        }
        let mut status = match self.kyc.get(&user) {
            Some(s) => *s,
            None => {
                return Err(InheritanceError::KycNotSubmitted);
            },
        };
        if !status.submitted {
            return Err(InheritanceError::KycNotSubmitted);
        }
        if status.rejected {
            return Err(InheritanceError::KycAlreadyRejected);
        }
        status.rejected = true;
        status.rejected_at = now;
        self.kyc.insert(user, status);
        self.log(Some(admin), AuditAction::KycRejected, Some(user), Some(EntityType::User), now);
        Ok(KycRejectedEvent { user, rejected_at: now })
    }

    /// Digest of raw bytes.
    pub fn hash_bytes(input: &[u8]) -> (r: Vec<u8>)
        requires
            input@.len() <= MAX_HASH_INPUT,
        ensures
            r@ == sha256_of(input@),
            r@.len() == DIGEST_LEN,
    {
        sha256(input)
    }

    /// Digest of the UTF-8 encoding of a text.
    pub fn hash_string(input: &str) -> (r: Vec<u8>)
        requires
            input.spec_bytes().len() <= MAX_HASH_INPUT,
        ensures
            r@ == sha256_of(input.spec_bytes()),
            r@.len() == DIGEST_LEN,
    {
        let bytes = input.as_bytes_vec();
        sha256(bytes.as_slice())
    }

    /// Digest of a claim code, or `InvalidClaimCodeRange` when the code has
    /// more than six digits.
    pub fn hash_claim_code(code: u32) -> (r: Result<Vec<u8>, InheritanceError>)
        ensures
            code > MAX_CLAIM_CODE <==> r is Err,
            r matches Err(e) ==> e == InheritanceError::InvalidClaimCodeRange,
            r matches Ok(h) ==> h@ == sha256_of(claim_code_digits(code)) && h@.len() == DIGEST_LEN,
    {
        if code > MAX_CLAIM_CODE {
            return Err(InheritanceError::InvalidClaimCodeRange);
        }
        let digits: Vec<u8> = vec![
            (48 + (code / 100000) % 10) as u8,
            (48 + (code / 10000) % 10) as u8,
            (48 + (code / 1000) % 10) as u8,
            (48 + (code / 100) % 10) as u8,
            (48 + (code / 10) % 10) as u8,
            (48 + code % 10) as u8,
        ];
        assert(digits@ =~= claim_code_digits(code));
        Ok(sha256(digits.as_slice()))
    }

    /// Checks the beneficiary set of a new plan.
    pub fn validate_beneficiaries(data: &Vec<BeneficiaryData>) -> (r: Result<(), InheritanceError>)
        ensures
            r == creation_set_verdict(allocations_of(data@)),
    {
        let n = data.len();
        if n > MAX_BENEFICIARIES {
            return Err(InheritanceError::TooManyBeneficiaries);
        }
        if n == 0 {
            return Err(InheritanceError::MissingRequiredField);
        }
        let ghost bps = allocations_of(data@);
        let mut total: u64 = 0;
        let mut i: usize = 0;
        while i < n
            invariant
                n == data@.len(),
                n <= MAX_BENEFICIARIES,
                bps == allocations_of(data@),
                i <= n,
                total == sum_bp(bps.take(i as int)),
                total <= i * 0xffff_ffffu64,
                forall|j: int| 0 <= j < i ==> bps[j] > 0,
            decreases n - i,
        {
            let bp = data[i].4;
            if bp == 0 {
                assert(bps[i as int] == 0);
                assert(!all_positive(bps));
                return Err(InheritanceError::InvalidAllocation);
            }
            proof {
                lemma_sum_bp_take(bps, i as int);
            }
            total = total + bp as u64;
            i = i + 1;
        }
        assert(bps.take(n as int) =~= bps);
        if total != FULL_ALLOCATION_BP as u64 {
            return Err(InheritanceError::AllocationPercentageMismatch);
        }
        Ok(())
    }

    /// Checks the plain fields of a new plan.
    pub fn validate_plan_inputs(
        plan_name: &str,
        description: &str,
        asset_type: &str,
        total_amount: u64,
    ) -> (r: Result<(), InheritanceError>)
        ensures
            r == plan_inputs_verdict(plan_name@, description@, asset_type@, total_amount),
    {
        if plan_name.unicode_len() == 0 {
            return Err(InheritanceError::MissingRequiredField);
        }
        if description.unicode_len() > MAX_DESCRIPTION_CHARS {
            return Err(InheritanceError::DescriptionTooLong);
        }
        if !text_equals(asset_type, "USDC") {
            return Err(InheritanceError::InvalidAssetType);
        }
        if total_amount == 0 {
            return Err(InheritanceError::InvalidTotalAmount);
        }
        Ok(())
    }

    /// Checks a submitted beneficiary and stores digests of its name,
    /// e-mail and claim code.
    pub fn create_beneficiary(
        full_name: &str,
        email: &str,
        claim_code: u32,
        bank_account: &[u8],
        allocation_bp: u32,
    ) -> (r: Result<Beneficiary, InheritanceError>)
        ensures
            r is Ok <==> beneficiary_verdict(full_name@, email@, claim_code, bank_account@, allocation_bp) is Ok,
            r matches Err(e) ==> beneficiary_verdict(full_name@, email@, claim_code, bank_account@, allocation_bp) == Err::<(), _>(e),
            r matches Ok(b) ==> b@ == hashed_beneficiary(full_name@, email@, claim_code, bank_account@, allocation_bp),
    {
        if full_name.unicode_len() == 0 || email.unicode_len() == 0 || bank_account.len() == 0
            || full_name.as_bytes().len() > MAX_TEXT_BYTES || email.as_bytes().len()
            > MAX_TEXT_BYTES {
            return Err(InheritanceError::InvalidBeneficiaryData);
        }
        if allocation_bp == 0 {
            return Err(InheritanceError::InvalidAllocation);
        }
        let hashed_claim_code = match Self::hash_claim_code(claim_code) {
            Ok(h) => h,
            Err(e) => {
                return Err(e);
            },
        };
        Ok(Beneficiary {
            hashed_full_name: Self::hash_string(full_name),
            hashed_email: Self::hash_string(email),
            hashed_claim_code,
            bank_account: crate::text::copy_bytes(bank_account),
            allocation_bp,
        })
    }

    /// Checks and fingerprints each entry of a creation set, in order,
    /// stopping at the first refusal.
    pub fn build_beneficiaries(data: &Vec<BeneficiaryData>) -> (r: Result<Vec<Beneficiary>, InheritanceError>)
        ensures
            r is Ok <==> first_data_error(data@) is Ok,
            r matches Err(e) ==> first_data_error(data@) == Err::<(), _>(e),
            r matches Ok(v) ==> v@.map_values(|b: Beneficiary| b@) == data@.map_values(
                |b: BeneficiaryData| hashed_data(b),
            ),
    {
        let mut beneficiaries: Vec<Beneficiary> = Vec::new();
        let mut i: usize = 0;
        while i < data.len()
            invariant
                i <= data@.len(),
                first_data_error(data@.take(i as int)) is Ok,
                beneficiaries@.len() == i,
                forall|j: int| 0 <= j < i ==> #[trigger] beneficiaries@[j]@ == hashed_data(data@[j]),
            decreases data@.len() - i,
        {
            let b = &data[i];
            proof {
                assert(data@.take(i + 1).drop_last() =~= data@.take(i as int));
                assert(data@.take(i + 1).last() == data@[i as int]);
            }
            match Self::create_beneficiary(b.0.as_str(), b.1.as_str(), b.2, b.3.as_slice(), b.4) {
                Ok(made) => {
                    beneficiaries.push(made);
                },
                Err(e) => {
                    proof {
                        lemma_first_error_extends(data@, i + 1);
                    }
                    return Err(e);
                },
            }
            i = i + 1;
        }
        proof {
            assert(data@.take(data@.len() as int) =~= data@);
            assert(beneficiaries@.map_values(|b: Beneficiary| b@) =~= data@.map_values(
                |b: BeneficiaryData| hashed_data(b),
            ));
        }
        Ok(beneficiaries)
    }

    /// Verdict of `create_inheritance_plan`.
    pub open spec fn create_verdict(
        &self,
        owner: ActorId,
        plan_name: Seq<char>,
        description: Seq<char>,
        total_amount: u64,
        data: Seq<BeneficiaryData>,
    ) -> Result<(), InheritanceError> {
        if self.policy().gate_plan_creation && !self.kyc_approved(owner) {
            Err(InheritanceError::KycNotApproved)
        } else if plan_inputs_verdict(plan_name, description, supported_asset(), total_amount) is Err {
            plan_inputs_verdict(plan_name, description, supported_asset(), total_amount)
        } else if creation_set_verdict(allocations_of(data)) is Err {
            creation_set_verdict(allocations_of(data))
        } else if first_data_error(data) is Err {
            first_data_error(data)
        } else if self.plans().len() >= u64::MAX {
            Err(InheritanceError::PlanCapacityExhausted)
        } else {
            Ok(())
        }
    }

    /// Creates a plan, owned by `owner`, whose beneficiaries share the whole
    /// amount; returns its identifier, one more than the last one assigned.
    pub fn create_inheritance_plan(
        &mut self,
        owner: ActorId,
        plan_name: String,
        description: String,
        total_amount: u64,
        distribution_method: DistributionMethod,
        beneficiaries_data: Vec<BeneficiaryData>,
        now: u64,
    ) -> (r: Result<u64, InheritanceError>)
        requires
            old(self).wf(),
        ensures
            final(self).wf(),
            r is Ok <==> old(self).create_verdict(owner, plan_name@, description@, total_amount, beneficiaries_data@) is Ok,
            r matches Err(e) ==> old(self).create_verdict(owner, plan_name@, description@, total_amount, beneficiaries_data@) == Err::<(), _>(e),
            r is Ok ==> r == Ok::<u64, InheritanceError>((old(self).plans().len() + 1) as u64)
                && final(self).plans() == old(self).plans().push(
                PlanView {
                    plan_name: plan_name@,
                    description: description@,
                    asset_type: supported_asset(),
                    total_amount,
                    distribution_method,
                    beneficiaries: beneficiaries_data@.map_values(|b: BeneficiaryData| hashed_data(b)),
                    total_allocation_bp: FULL_ALLOCATION_BP,
                    owner,
                    created_at: now,
                    is_active: true,
                },
            ) && final(self).audit() == old(self).audit().push(
                AuditLogEntry {
                    actor_id: Some(owner),
                    action: AuditAction::PlanCreated,
                    entity_id: Some((old(self).plans().len() + 1) as u64),
                    entity_type: Some(EntityType::Plan),
                    timestamp: now,
                },
            ),
            r is Err ==> final(self).plans() == old(self).plans() && final(self).audit() == old(self).audit(),
            final(self).claims() == old(self).claims(),
            final(self).claimed_ids() == old(self).claimed_ids(),
            final(self).deactivated_ids() == old(self).deactivated_ids(),
            final(self).kyc() == old(self).kyc(),
            final(self).admin() == old(self).admin(),
            final(self).stored_version() == old(self).stored_version(),
            final(self).policy() == old(self).policy(),
    {
        if self.kyc_policy.gate_plan_creation && !self.is_kyc_approved(owner) {
            return Err(InheritanceError::KycNotApproved);
        }
        if let Err(e) = Self::validate_plan_inputs(plan_name.as_str(), description.as_str(), "USDC", total_amount) {
            proof { reveal_strlit("USDC"); }
            return Err(e);
        }
        if let Err(e) = Self::validate_beneficiaries(&beneficiaries_data) {
            return Err(e);
        }
        let ghost data = beneficiaries_data@;
        let beneficiaries = match Self::build_beneficiaries(&beneficiaries_data) {
            Ok(b) => b,
            Err(e) => {
                return Err(e);
            },
        };
        let count = self.plans.len();
        if count as u64 >= u64::MAX {
            return Err(InheritanceError::PlanCapacityExhausted);
        }
        let plan_id = count as u64 + 1;
        let plan = InheritancePlan {
            plan_name,
            description,
            asset_type: "USDC".to_string(),
            total_amount,
            distribution_method,
            beneficiaries,
            total_allocation_bp: FULL_ALLOCATION_BP,
            owner,
            created_at: now,
            is_active: true,
        };
        proof {
            reveal_strlit("USDC");
            assert(plan@.beneficiaries =~= data.map_values(|b: BeneficiaryData| hashed_data(b)));
            assert(plan_allocations(plan@) =~= allocations_of(data));
            assert(all_positive(allocations_of(data)));
            assert forall|j: int| 0 <= j < plan@.beneficiaries.len() implies plan@.beneficiaries[j].allocation_bp > 0 by {
                assert(plan_allocations(plan@)[j] == plan@.beneficiaries[j].allocation_bp);
            }
            lemma_push_plan(self.plans(), self.claims(), self.claimed_ids(), self.deactivated_ids(), plan@);
        }
        self.plans.push(plan);
        proof {
            assert(self.plans() =~= old(self).plans().push(plan@));
        }
        self.log(Some(owner), AuditAction::PlanCreated, Some(plan_id), Some(EntityType::Plan), now);
        Ok(plan_id)
    }

    /// The plan `plan_id` if `owner` owns it and it is active.
    pub open spec fn owned_active_plan(&self, owner: ActorId, plan_id: u64) -> Result<PlanView, InheritanceError> {
        match self.plan(plan_id) {
            None => Err(InheritanceError::PlanNotFound),
            Some(p) => if p.owner != owner {
                Err(InheritanceError::Unauthorized)
            } else if !p.is_active {
                Err(InheritanceError::PlanNotActive)
            } else {
                Ok(p)
            },
        }
    }

    /// Verdict of `add_beneficiary`: the new total on success.
    pub open spec fn add_beneficiary_verdict(
        &self,
        owner: ActorId,
        plan_id: u64,
        name: Seq<char>,
        email: Seq<char>,
        code: u32,
        bank: Seq<u8>,
        bp: u32,
    ) -> Result<u32, InheritanceError> {
        match self.owned_active_plan(owner, plan_id) {
            Err(e) => Err(e),
            Ok(p) => if p.beneficiaries.len() >= MAX_BENEFICIARIES {
                Err(InheritanceError::TooManyBeneficiaries)
            } else if add_verdict(p.total_allocation_bp, bp) is Err {
                add_verdict(p.total_allocation_bp, bp)
            } else {
                match beneficiary_verdict(name, email, code, bank, bp) {
                    Err(e) => Err(e),
                    Ok(_) => add_verdict(p.total_allocation_bp, bp),
                }
            },
        }
    }

    /// Adds a beneficiary to an active plan of `owner`, keeping the total
    /// allocation within the whole.
    pub fn add_beneficiary(
        &mut self,
        owner: ActorId,
        plan_id: u64,
        beneficiary_input: BeneficiaryInput,
        now: u64,
    ) -> (r: Result<BeneficiaryAddedEvent, InheritanceError>)
        requires
            old(self).wf(),
        ensures
            final(self).wf(),
            r is Ok <==> old(self).add_beneficiary_verdict(
                owner, plan_id, beneficiary_input.name@, beneficiary_input.email@,
                beneficiary_input.claim_code, beneficiary_input.bank_account@,
                beneficiary_input.allocation_bp,
            ) is Ok,
            r matches Err(e) ==> old(self).add_beneficiary_verdict(
                owner, plan_id, beneficiary_input.name@, beneficiary_input.email@,
                beneficiary_input.claim_code, beneficiary_input.bank_account@,
                beneficiary_input.allocation_bp,
            ) == Err::<u32, _>(e),
            r matches Ok(ev) ==> {
                let p = old(self).plans()[plan_id - 1];
                let b = hashed_beneficiary(
                    beneficiary_input.name@, beneficiary_input.email@, beneficiary_input.claim_code,
                    beneficiary_input.bank_account@, beneficiary_input.allocation_bp,
                );
                &&& ev.plan_id == plan_id
                &&& ev.hashed_email@ == b.hashed_email
                &&& ev.allocation_bp == beneficiary_input.allocation_bp
                &&& final(self).plans() == old(self).plans().update(
                    plan_id - 1,
                    PlanView {
                        beneficiaries: p.beneficiaries.push(b),
                        total_allocation_bp: (p.total_allocation_bp + beneficiary_input.allocation_bp) as u32,
                        ..p
                    },
                )
                &&& final(self).audit() == old(self).audit().push(
                    AuditLogEntry {
                        actor_id: Some(owner),
                        action: AuditAction::BeneficiaryAdded,
                        entity_id: Some(plan_id),
                        entity_type: Some(EntityType::Plan),
                        timestamp: now,
                    },
                )
            },
            r is Err ==> final(self).plans() == old(self).plans() && final(self).audit() == old(self).audit(),
            final(self).claims() == old(self).claims(),
            final(self).claimed_ids() == old(self).claimed_ids(),
            final(self).deactivated_ids() == old(self).deactivated_ids(),
            final(self).kyc() == old(self).kyc(),
            final(self).admin() == old(self).admin(),
            final(self).stored_version() == old(self).stored_version(),
            final(self).policy() == old(self).policy(),
    {
        if plan_id == 0 || plan_id > self.plans.len() as u64 {
            return Err(InheritanceError::PlanNotFound);
        }
        let idx = (plan_id - 1) as usize;
        if self.plans[idx].owner != owner {
            return Err(InheritanceError::Unauthorized);
        }
        if !self.plans[idx].is_active {
            return Err(InheritanceError::PlanNotActive);
        }
        if self.plans[idx].beneficiaries.len() >= MAX_BENEFICIARIES {
            return Err(InheritanceError::TooManyBeneficiaries);
        }
        let new_total = match validate_add(self.plans[idx].total_allocation_bp, beneficiary_input.allocation_bp) {
            Ok(t) => t,
            Err(e) => {
                return Err(e);
            },
        };
        let beneficiary = match Self::create_beneficiary(
            beneficiary_input.name.as_str(),
            beneficiary_input.email.as_str(),
            beneficiary_input.claim_code,
            beneficiary_input.bank_account.as_slice(),
            beneficiary_input.allocation_bp,
        ) {
            Ok(b) => b,
            Err(e) => {
                return Err(e);
            },
        };
        let event = BeneficiaryAddedEvent {
            plan_id,
            hashed_email: crate::text::copy_bytes(beneficiary.hashed_email.as_slice()),
            allocation_bp: beneficiary_input.allocation_bp,
        };
        let ghost old_view = self.plans@[idx as int]@;
        let ghost bview = beneficiary@;
        let mut plan = self.plans.remove(idx);
        plan.beneficiaries.push(beneficiary);
        plan.total_allocation_bp = new_total;
        proof {
            assert(plan@.beneficiaries =~= old_view.beneficiaries.push(bview));
            assert(plan_allocations(plan@) =~= plan_allocations(old_view).push(bview.allocation_bp));
            lemma_sum_bp_push(plan_allocations(old_view), bview.allocation_bp);
            assert(plan_invariant(old_view));
            assert forall|j: int| 0 <= j < plan@.beneficiaries.len() implies plan@.beneficiaries[j].allocation_bp > 0 by {
                if j < old_view.beneficiaries.len() {
                    assert(plan@.beneficiaries[j] == old_view.beneficiaries[j]);
                }
            }
            lemma_update_plan(old(self).plans(), old(self).claims(), old(self).claimed_ids(), old(self).deactivated_ids(), idx as int, plan@);
        }
        self.plans.insert(idx, plan);
        proof {
            assert(self.plans() =~= old(self).plans().update(idx as int, plan@));
        }
        self.log(Some(owner), AuditAction::BeneficiaryAdded, Some(plan_id), Some(EntityType::Plan), now);
        Ok(event)
    }

    /// Verdict of `remove_beneficiary`: the removed share on success.
    pub open spec fn remove_beneficiary_verdict(&self, owner: ActorId, plan_id: u64, index: u32) -> Result<u32, InheritanceError> {
        match self.owned_active_plan(owner, plan_id) {
            Err(e) => Err(e),
            Ok(p) => if index >= p.beneficiaries.len() {
                Err(InheritanceError::InvalidBeneficiaryIndex)
            } else {
                Ok(p.beneficiaries[index as int].allocation_bp)
            },
        }
    }

    /// Removes beneficiary `index` from an active plan of `owner`: the last
    /// beneficiary takes its place, and its share leaves the total.
    pub fn remove_beneficiary(&mut self, owner: ActorId, plan_id: u64, index: u32, now: u64) -> (r: Result<BeneficiaryRemovedEvent, InheritanceError>)
        requires
            old(self).wf(),
        ensures
            final(self).wf(),
            r is Ok <==> old(self).remove_beneficiary_verdict(owner, plan_id, index) is Ok,
            r matches Err(e) ==> old(self).remove_beneficiary_verdict(owner, plan_id, index) == Err::<u32, _>(e),
            r matches Ok(ev) ==> {
                let p = old(self).plans()[plan_id - 1];
                let removed = p.beneficiaries[index as int].allocation_bp;
                &&& ev == BeneficiaryRemovedEvent { plan_id, index, allocation_bp: removed }
                &&& final(self).plans() == old(self).plans().update(
                    plan_id - 1,
                    PlanView {
                        beneficiaries: swap_removed(p.beneficiaries, index as int),
                        total_allocation_bp: (p.total_allocation_bp - removed) as u32,
                        ..p
                    },
                )
                &&& final(self).audit() == old(self).audit().push(
                    AuditLogEntry {
                        actor_id: Some(owner),
                        action: AuditAction::BeneficiaryRemoved,
                        entity_id: Some(plan_id),
                        entity_type: Some(EntityType::Plan),
                        timestamp: now,
                    },
                )
            },
            r is Err ==> final(self).plans() == old(self).plans() && final(self).audit() == old(self).audit(),
            final(self).claims() == old(self).claims(),
            final(self).claimed_ids() == old(self).claimed_ids(),
            final(self).deactivated_ids() == old(self).deactivated_ids(),
            final(self).kyc() == old(self).kyc(),
            final(self).admin() == old(self).admin(),
            final(self).stored_version() == old(self).stored_version(),
            final(self).policy() == old(self).policy(),
    {
        if plan_id == 0 || plan_id > self.plans.len() as u64 {
            return Err(InheritanceError::PlanNotFound);
        }
        let idx = (plan_id - 1) as usize;
        if self.plans[idx].owner != owner {
            return Err(InheritanceError::Unauthorized);
        }
        if !self.plans[idx].is_active {
            return Err(InheritanceError::PlanNotActive);
        }
        if index as usize >= self.plans[idx].beneficiaries.len() {
            return Err(InheritanceError::InvalidBeneficiaryIndex);
        }
        let ghost old_view = self.plans@[idx as int]@;
        proof {
            assert(plan_invariant(old_view));
        }
        let mut plan = self.plans.remove(idx);
        let removed = plan.beneficiaries.swap_remove(index as usize);
        let removed_allocation = removed.allocation_bp;
        proof {
            let s = plan_allocations(old_view);
            assert(plan@.beneficiaries =~= swap_removed(old_view.beneficiaries, index as int));
            assert(plan_allocations(plan@) =~= s.update(index as int, s.last()).drop_last());
            lemma_sum_bp_swap_remove(s, index as int);
            lemma_sum_bp_bound(plan_allocations(plan@), 0xffff_ffffu32);
            assert(removed_allocation == s[index as int]);
        }
        plan.total_allocation_bp = plan.total_allocation_bp - removed_allocation;
        proof {
            assert forall|j: int| 0 <= j < plan@.beneficiaries.len() implies plan@.beneficiaries[j].allocation_bp > 0 by {
                if j == index as int {
                    assert(plan@.beneficiaries[j] == old_view.beneficiaries[old_view.beneficiaries.len() - 1]);
                } else {
                    assert(plan@.beneficiaries[j] == old_view.beneficiaries[j]);
                }
            }
            lemma_update_plan(old(self).plans(), old(self).claims(), old(self).claimed_ids(), old(self).deactivated_ids(), idx as int, plan@);
        }
        self.plans.insert(idx, plan);
        proof {
            assert(self.plans() =~= old(self).plans().update(idx as int, plan@));
        }
        self.log(Some(owner), AuditAction::BeneficiaryRemoved, Some(plan_id), Some(EntityType::Plan), now);
        Ok(BeneficiaryRemovedEvent { plan_id, index, allocation_bp: removed_allocation })
    }

    /// Verdict of `deactivate_inheritance_plan`.
    pub open spec fn deactivate_verdict(&self, owner: ActorId, plan_id: u64) -> Result<(), InheritanceError> {
        match self.plan(plan_id) {
            None => Err(InheritanceError::PlanNotFound),
            Some(p) => if p.owner != owner {
                Err(InheritanceError::Unauthorized)
            } else if !p.is_active {
                Err(InheritanceError::PlanAlreadyDeactivated)
            } else {
                Ok(())
            },
        }
    }

    /// Deactivates an active plan of `owner`, for good, and indexes it
    /// among the deactivated plans; the returned event asks custody to
    /// return the funds.
    pub fn deactivate_inheritance_plan(&mut self, owner: ActorId, plan_id: u64, now: u64) -> (r: Result<PlanDeactivatedEvent, InheritanceError>)
        requires
            old(self).wf(),
        ensures
            final(self).wf(),
            r is Ok <==> old(self).deactivate_verdict(owner, plan_id) is Ok,
            r matches Err(e) ==> old(self).deactivate_verdict(owner, plan_id) == Err::<(), _>(e),
            r matches Ok(ev) ==> {
                let p = old(self).plans()[plan_id - 1];
                &&& ev == PlanDeactivatedEvent { plan_id, owner, total_amount: p.total_amount, deactivated_at: now }
                &&& final(self).plans() == old(self).plans().update(plan_id - 1, PlanView { is_active: false, ..p })
                &&& final(self).deactivated_ids() == old(self).deactivated_ids().push(plan_id)
                &&& final(self).audit() == old(self).audit().push(
                    AuditLogEntry {
                        actor_id: Some(owner),
                        action: AuditAction::PlanDeactivated,
                        entity_id: Some(plan_id),
                        entity_type: Some(EntityType::Plan),
                        timestamp: now,
                    },
                )
            },
            r is Err ==> final(self).plans() == old(self).plans() && final(self).audit() == old(self).audit()
                && final(self).deactivated_ids() == old(self).deactivated_ids(),
            final(self).claims() == old(self).claims(),
            final(self).claimed_ids() == old(self).claimed_ids(),
            final(self).kyc() == old(self).kyc(),
            final(self).admin() == old(self).admin(),
            final(self).stored_version() == old(self).stored_version(),
            final(self).policy() == old(self).policy(),
    {
        if plan_id == 0 || plan_id > self.plans.len() as u64 {
            return Err(InheritanceError::PlanNotFound);
        }
        let idx = (plan_id - 1) as usize;
        if self.plans[idx].owner != owner {
            return Err(InheritanceError::Unauthorized);
        }
        if !self.plans[idx].is_active {
            return Err(InheritanceError::PlanAlreadyDeactivated);
        }
        proof {
            lemma_deactivate_plan(self.plans(), self.claims(), self.claimed_ids(), self.deactivated_ids(), plan_id);
        }
        let mut plan = self.plans.remove(idx);
        plan.is_active = false;
        let total_amount = plan.total_amount;
        self.plans.insert(idx, plan);
        self.deactivated_plan_ids.push(plan_id);
        proof {
            assert(self.plans() =~= old(self).plans().update(idx as int, PlanView { is_active: false, ..old(self).plans()[idx as int] }));
        }
        self.log(Some(owner), AuditAction::PlanDeactivated, Some(plan_id), Some(EntityType::Plan), now);
        Ok(PlanDeactivatedEvent { plan_id, owner, total_amount, deactivated_at: now })
    }

    /// Whether a claim is recorded under `key`.
    pub fn has_claim(&self, key: &[u8]) -> (r: bool)
        ensures
            r == self.has_claim_key(key@),
    {
        let mut i: usize = 0;
        while i < self.claims.len()
            invariant
                i <= self.claims@.len(),
                forall|j: int| 0 <= j < i ==> #[trigger] self.claims()[j].0 != key@,
            decreases self.claims@.len() - i,
        {
            if bytes_equal(self.claims[i].key.as_slice(), key) {
                assert(self.claims()[i as int].0 == key@);
                return true;
            }
            i = i + 1;
        }
        false
    }

    /// Verdict of `claim_inheritance_plan`: the record that a success
    /// writes.
    pub open spec fn claim_verdict(
        &self,
        claimant: ActorId,
        plan_id: u64,
        email: Seq<char>,
        claim_code: u32,
        now: u64,
    ) -> Result<ClaimRecord, InheritanceError> {
        if self.policy().gate_claims && !self.kyc_approved(claimant) {
            Err(InheritanceError::KycNotApproved)
        } else {
            match self.plan(plan_id) {
                None => Err(InheritanceError::PlanNotFound),
                Some(p) => if !p.is_active {
                    Err(InheritanceError::PlanNotActive)
                } else if !claimable(p.distribution_method, p.created_at, now) {
                    Err(InheritanceError::ClaimNotAllowedYet)
                } else if claim_code > MAX_CLAIM_CODE {
                    Err(InheritanceError::InvalidClaimCodeRange)
                } else if !text_fits(email) {
                    Err(InheritanceError::BeneficiaryNotFound)
                } else {
                    let he = sha256_of(encode_utf8(email));
                    let hc = sha256_of(claim_code_digits(claim_code));
                    if !(exists|i: int| is_first_match(p.beneficiaries, he, hc, i)) {
                        Err(InheritanceError::BeneficiaryNotFound)
                    } else if self.has_claim_key(claim_key_of(plan_id, he)) {
                        Err(InheritanceError::AlreadyClaimed)
                    } else {
                        Ok(
                            ClaimRecord {
                                plan_id,
                                beneficiary_index: (choose|i: int| is_first_match(p.beneficiaries, he, hc, i)) as u32,
                                claimed_at: now,
                            },
                        )
                    }
                },
            }
        }
    }

    /// Records the claim of the beneficiary whose e-mail and claim code are
    /// given on plan `plan_id` at `now`, at most once per plan and
    /// beneficiary.
    pub fn claim_inheritance_plan(
        &mut self,
        claimant: ActorId,
        plan_id: u64,
        email: &str,
        claim_code: u32,
        now: u64,
    ) -> (r: Result<ClaimRecord, InheritanceError>)
        requires
            old(self).wf(),
        ensures
            final(self).wf(),
            r == old(self).claim_verdict(claimant, plan_id, email@, claim_code, now),
            r matches Ok(rec) ==> {
                &&& final(self).claims() == old(self).claims().push(
                    (claim_key_of(plan_id, sha256_of(encode_utf8(email@))), rec),
                )
                &&& final(self).claimed_ids() == if old(self).claimed_ids().contains(plan_id) {
                    old(self).claimed_ids()
                } else {
                    old(self).claimed_ids().push(plan_id)
                }
                &&& final(self).audit() == old(self).audit().push(
                    AuditLogEntry {
                        actor_id: Some(claimant),
                        action: AuditAction::ClaimSuccess,
                        entity_id: Some(plan_id),
                        entity_type: Some(EntityType::Plan),
                        timestamp: now,
                    },
                )
            },
            r is Err ==> final(self).claims() == old(self).claims() && final(self).claimed_ids()
                == old(self).claimed_ids() && final(self).audit() == old(self).audit(),
            final(self).plans() == old(self).plans(),
            final(self).deactivated_ids() == old(self).deactivated_ids(),
            final(self).kyc() == old(self).kyc(),
            final(self).admin() == old(self).admin(),
            final(self).stored_version() == old(self).stored_version(),
            final(self).policy() == old(self).policy(),
    {
        if self.kyc_policy.gate_claims && !self.is_kyc_approved(claimant) {
            return Err(InheritanceError::KycNotApproved);
        }
        if plan_id == 0 || plan_id > self.plans.len() as u64 {
            return Err(InheritanceError::PlanNotFound);
        }
        let idx = (plan_id - 1) as usize;
        let plan = &self.plans[idx];
        let ghost p = self.plans()[idx as int];
        if !plan.is_active {
            return Err(InheritanceError::PlanNotActive);
        }
        if !is_claim_time_valid(plan.distribution_method, plan.created_at, now) {
            return Err(InheritanceError::ClaimNotAllowedYet);
        }
        let hashed_code = match Self::hash_claim_code(claim_code) {
            Ok(h) => h,
            Err(e) => {
                return Err(e);
            },
        };
        if email.as_bytes().len() > MAX_TEXT_BYTES {
            return Err(InheritanceError::BeneficiaryNotFound);
        }
        let hashed_email = Self::hash_string(email);
        let ghost he = hashed_email@;
        let ghost hc = hashed_code@;
        assert(p.beneficiaries == plan.beneficiaries@.map_values(|b: Beneficiary| b@));
        let index = match find_beneficiary(&plan.beneficiaries, hashed_email.as_slice(), hashed_code.as_slice()) {
            Some(i) => i,
            None => {
                proof {
                    assert forall|i: int| !is_first_match(p.beneficiaries, he, hc, i) by {
                        if 0 <= i < p.beneficiaries.len() {
                            assert(p.beneficiaries[i] == plan.beneficiaries@[i]@);
                        }
                    }
                }
                return Err(InheritanceError::BeneficiaryNotFound);
            },
        };
        proof {
            let k = choose|k: int| is_first_match(p.beneficiaries, he, hc, k);
            assert(is_first_match(p.beneficiaries, he, hc, index as int));
            if k < index {
                assert(!credential_match(p.beneficiaries[k], he, hc));
            } else if k > index {
                assert(!credential_match(p.beneficiaries[index as int], he, hc));
            }
            assert(k == index);
            assert(plan_invariant(p));
        }
        let key = claim_key(plan_id, hashed_email.as_slice());
        if self.has_claim(key.as_slice()) {
            return Err(InheritanceError::AlreadyClaimed);
        }
        let record = ClaimRecord { plan_id, beneficiary_index: index as u32, claimed_at: now };
        proof {
            lemma_record_claim(self.plans(), self.claims(), self.claimed_ids(), self.deactivated_ids(), key@, record);
        }
        self.claims.push(ClaimEntry { key, record });
        if !contains_id(&self.claimed_plan_ids, plan_id) {
            self.claimed_plan_ids.push(plan_id);
        }
        proof {
            assert(self.claims() =~= old(self).claims().push((key@, record)));
        }
        self.log(Some(claimant), AuditAction::ClaimSuccess, Some(plan_id), Some(EntityType::Plan), now);
        Ok(record)
    }

    /// Copies of the plans that filter `f` returns, in order of creation.
    pub fn collect_plans(&self, f: PlanFilter) -> (r: Vec<InheritancePlan>)
        ensures
            plan_views(r@) == select(self.plans(), f),
    {
        let mut r: Vec<InheritancePlan> = Vec::new();
        let mut i: usize = 0;
        while i < self.plans.len()
            invariant
                i <= self.plans@.len(),
                plan_views(r@) == select(self.plans().take(i as int), f),
            decreases self.plans@.len() - i,
        {
            proof {
                assert(self.plans().take(i + 1).drop_last() =~= self.plans().take(i as int));
                assert(self.plans().take(i + 1).last() == self.plans@[i as int]@);
            }
            if Self::plan_selected(f, &self.plans[i]) {
                let c = self.plans[i].copy();
                r.push(c);
                proof {
                    assert(plan_views(r@) =~= select(self.plans().take(i as int), f).push(c@));
                }
            }
            i = i + 1;
        }
        proof {
            assert(self.plans().take(self.plans@.len() as int) =~= self.plans());
        }
        r
    }

    /// Whether filter `f` returns plan `p`.
    fn plan_selected(f: PlanFilter, p: &InheritancePlan) -> (r: bool)
        ensures
            r == selects(f, p@),
    {
        match f {
            PlanFilter::All => true,
            PlanFilter::Active => p.is_active,
            PlanFilter::OwnedBy(o) => p.owner == o,
            PlanFilter::ActiveOwnedBy(o) => p.owner == o && p.is_active,
            PlanFilter::InactiveOwnedBy(o) => p.owner == o && !p.is_active,
        }
    }

    /// Copies of the plans named by `ids`, in that order, skipping unknown
    /// identifiers and, when `owner` is given, plans of other owners.
    pub fn collect_plans_by_ids(&self, ids: &Vec<u64>, owner: Option<ActorId>) -> (r: Vec<InheritancePlan>)
        ensures
            plan_views(r@) == plans_by_ids(self.plans(), ids@, owner),
    {
        let mut r: Vec<InheritancePlan> = Vec::new();
        let mut i: usize = 0;
        while i < ids.len()
            invariant
                i <= ids@.len(),
                plan_views(r@) == plans_by_ids(self.plans(), ids@.take(i as int), owner),
            decreases ids@.len() - i,
        {
            proof {
                assert(ids@.take(i + 1).drop_last() =~= ids@.take(i as int));
                assert(ids@.take(i + 1).last() == ids@[i as int]);
            }
            let id = ids[i];
            if id >= 1 && id <= self.plans.len() as u64 {
                let p = &self.plans[(id - 1) as usize];
                let keep = match owner {
                    Some(o) => p.owner == o,
                    None => true,
                };
                if keep {
                    let c = p.copy();
                    r.push(c);
                    proof {
                        assert(plan_views(r@) =~= plans_by_ids(self.plans(), ids@.take(i as int), owner).push(c@));
                    }
                }
            }
            i = i + 1;
        }
        proof {
            assert(ids@.take(ids@.len() as int) =~= ids@);
        }
        r
    }

    /// A copy of plan `plan_id`, if there is one.
    pub fn get_plan_details(&self, plan_id: u64) -> (r: Option<InheritancePlan>)
        ensures
            r is None <==> self.plan(plan_id) is None,
            r matches Some(p) ==> self.plan(plan_id) == Some(p@),
    {
        if plan_id == 0 || plan_id > self.plans.len() as u64 {
            return None;
        }
        Some(self.plans[(plan_id - 1) as usize].copy())
    }

    /// The plan `plan_id` if `user` owns it.
    pub open spec fn owned_plan(&self, user: ActorId, plan_id: u64) -> Result<PlanView, InheritanceError> {
        match self.plan(plan_id) {
            None => Err(InheritanceError::PlanNotFound),
            Some(p) => if p.owner != user {
                Err(InheritanceError::Unauthorized)
            } else {
                Ok(p)
            },
        }
    }

    /// A copy of plan `plan_id`, active or not, for its owner.
    pub fn get_user_plan(&self, user: ActorId, plan_id: u64) -> (r: Result<InheritancePlan, InheritanceError>)
        ensures
            r is Ok <==> self.owned_plan(user, plan_id) is Ok,
            r matches Err(e) ==> self.owned_plan(user, plan_id) == Err::<PlanView, _>(e),
            r matches Ok(p) ==> self.owned_plan(user, plan_id) == Ok::<_, InheritanceError>(p@),
    {
        if plan_id == 0 || plan_id > self.plans.len() as u64 {
            return Err(InheritanceError::PlanNotFound);
        }
        let p = &self.plans[(plan_id - 1) as usize];
        if p.owner != user {
            return Err(InheritanceError::Unauthorized);
        }
        Ok(p.copy())
    }

    /// The plans of `user`, in order of creation.
    pub fn get_user_plans(&self, user: ActorId) -> (r: Vec<InheritancePlan>)
        ensures
            plan_views(r@) == select(self.plans(), PlanFilter::OwnedBy(user)),
    {
        self.collect_plans(PlanFilter::OwnedBy(user))
    }

    /// Every plan, for the administrator.
    pub fn get_all_plans(&self, admin: ActorId) -> (r: Result<Vec<InheritancePlan>, InheritanceError>)
        ensures
            r is Ok <==> self.admin_verdict(admin) is Ok,
            r matches Err(e) ==> self.admin_verdict(admin) == Err::<(), _>(e),
            r matches Ok(v) ==> plan_views(v@) == select(self.plans(), PlanFilter::All),
    {
        if let Err(e) = self.require_admin(admin) {
            return Err(e);
        }
        Ok(self.collect_plans(PlanFilter::All))
    }

    /// The active plans of `user`, in order of creation.
    pub fn get_user_pending_plans(&self, user: ActorId) -> (r: Vec<InheritancePlan>)
        ensures
            plan_views(r@) == select(self.plans(), PlanFilter::ActiveOwnedBy(user)),
    {
        self.collect_plans(PlanFilter::ActiveOwnedBy(user))
    }

    /// Every active plan, for the administrator.
    pub fn get_all_pending_plans(&self, admin: ActorId) -> (r: Result<Vec<InheritancePlan>, InheritanceError>)
        ensures
            r is Ok <==> self.admin_verdict(admin) is Ok,
            r matches Err(e) ==> self.admin_verdict(admin) == Err::<(), _>(e),
            r matches Ok(v) ==> plan_views(v@) == select(self.plans(), PlanFilter::Active),
    {
        if let Err(e) = self.require_admin(admin) {
            return Err(e);
        }
        Ok(self.collect_plans(PlanFilter::Active))
    }

    /// Verdict of `get_deactivated_plan`.
    pub open spec fn deactivated_plan_verdict(&self, user: ActorId, plan_id: u64) -> Result<PlanView, InheritanceError> {
        match self.owned_plan(user, plan_id) {
            Err(e) => Err(e),
            Ok(p) => if p.is_active {
                Err(InheritanceError::PlanNotActive)
            } else {
                Ok(p)
            },
        }
    }

    /// A copy of a deactivated plan, for its owner.
    pub fn get_deactivated_plan(&self, user: ActorId, plan_id: u64) -> (r: Result<InheritancePlan, InheritanceError>)
        ensures
            r is Ok <==> self.deactivated_plan_verdict(user, plan_id) is Ok,
            r matches Err(e) ==> self.deactivated_plan_verdict(user, plan_id) == Err::<PlanView, _>(e),
            r matches Ok(p) ==> self.deactivated_plan_verdict(user, plan_id) == Ok::<_, InheritanceError>(p@),
    {
        let p = match self.get_user_plan(user, plan_id) {
            Ok(p) => p,
            Err(e) => {
                return Err(e);
            },
        };
        if p.is_active {
            return Err(InheritanceError::PlanNotActive);
        }
        Ok(p)
    }

    /// The deactivated plans of `user`, in order of creation.
    pub fn get_user_deactivated_plans(&self, user: ActorId) -> (r: Vec<InheritancePlan>)
        ensures
            plan_views(r@) == select(self.plans(), PlanFilter::InactiveOwnedBy(user)),
    {
        self.collect_plans(PlanFilter::InactiveOwnedBy(user))
    }

    /// Every deactivated plan, in order of deactivation, for the
    /// administrator.
    pub fn get_all_deactivated_plans(&self, admin: ActorId) -> (r: Result<Vec<InheritancePlan>, InheritanceError>)
        ensures
            r is Ok <==> self.admin_verdict(admin) is Ok,
            r matches Err(e) ==> self.admin_verdict(admin) == Err::<(), _>(e),
            r matches Ok(v) ==> plan_views(v@) == plans_by_ids(self.plans(), self.deactivated_ids(), None),
    {
        if let Err(e) = self.require_admin(admin) {
            return Err(e);
        }
        Ok(self.collect_plans_by_ids(&self.deactivated_plan_ids, None))
    }

    /// Verdict of `get_claimed_plan`.
    pub open spec fn claimed_plan_verdict(&self, user: ActorId, plan_id: u64) -> Result<PlanView, InheritanceError> {
        match self.owned_plan(user, plan_id) {
            Err(e) => Err(e),
            Ok(p) => if !self.claimed_ids().contains(plan_id) {
                Err(InheritanceError::PlanNotClaimed)
            } else {
                Ok(p)
            },
        }
    }

    /// A copy of a plan of `user` on which a claim is recorded.
    pub fn get_claimed_plan(&self, user: ActorId, plan_id: u64) -> (r: Result<InheritancePlan, InheritanceError>)
        ensures
            r is Ok <==> self.claimed_plan_verdict(user, plan_id) is Ok,
            r matches Err(e) ==> self.claimed_plan_verdict(user, plan_id) == Err::<PlanView, _>(e),
            r matches Ok(p) ==> self.claimed_plan_verdict(user, plan_id) == Ok::<_, InheritanceError>(p@),
    {
        let p = match self.get_user_plan(user, plan_id) {
            Ok(p) => p,
            Err(e) => {
                return Err(e);
            },
        };
        if !contains_id(&self.claimed_plan_ids, plan_id) {
            return Err(InheritanceError::PlanNotClaimed);
        }
        Ok(p)
    }

    /// The plans of `user` with a recorded claim, in order of first claim.
    pub fn get_user_claimed_plans(&self, user: ActorId) -> (r: Vec<InheritancePlan>)
        ensures
            plan_views(r@) == plans_by_ids(self.plans(), self.claimed_ids(), Some(user)),
    {
        self.collect_plans_by_ids(&self.claimed_plan_ids, Some(user))
    }

    /// Every plan with a recorded claim, in order of first claim, for the
    /// administrator.
    pub fn get_all_claimed_plans(&self, admin: ActorId) -> (r: Result<Vec<InheritancePlan>, InheritanceError>)
        ensures
            r is Ok <==> self.admin_verdict(admin) is Ok,
            r matches Err(e) ==> self.admin_verdict(admin) == Err::<(), _>(e),
            r matches Ok(v) ==> plan_views(v@) == plans_by_ids(self.plans(), self.claimed_ids(), None),
    {
        if let Err(e) = self.require_admin(admin) {
            return Err(e);
        }
        Ok(self.collect_plans_by_ids(&self.claimed_plan_ids, None))
    }

    /// The audit trail, oldest first, for the administrator.
    pub fn list_audit_logs(&self, admin: ActorId) -> (r: Result<Vec<AuditLogEntry>, InheritanceError>)
        ensures
            r is Ok <==> self.admin_verdict(admin) is Ok,
            r matches Err(e) ==> self.admin_verdict(admin) == Err::<(), _>(e),
            r matches Ok(v) ==> v@ == self.audit(),
    {
        if let Err(e) = self.require_admin(admin) {
            return Err(e);
        }
        let mut r: Vec<AuditLogEntry> = Vec::new();
        let mut i: usize = 0;
        while i < self.audit_log.len()
            invariant
                i <= self.audit_log@.len(),
                r@ == self.audit().take(i as int),
            decreases self.audit_log@.len() - i,
        {
            r.push(self.audit_log[i]);
            i = i + 1;
            assert(r@ =~= self.audit().take(i as int));
        }
        assert(self.audit().take(self.audit_log@.len() as int) =~= self.audit());
        Ok(r)
    }

    /// The version in force: the stored record, else the built-in one.
    pub fn version(&self) -> (r: u32)
        ensures
            r == self.current_version(),
    {
        match self.version {
            Some(v) => v,
            None => CONTRACT_VERSION,
        }
    }

    /// Verdict of `upgrade`: the new version on success.
    pub open spec fn upgrade_verdict(&self, admin: ActorId) -> Result<u32, InheritanceError> {
        if self.admin_verdict(admin) is Err {
            Err(self.admin_verdict(admin)->Err_0)
        } else if self.current_version() == u32::MAX {
            Err(InheritanceError::UpgradeFailed)
        } else {
            Ok((self.current_version() + 1) as u32)
        }
    }

    /// Advances the version for new logic identified by `new_wasm_hash`
    /// (administrator only); all plans, claims and verification records
    /// stay as they are. The returned event asks the deployer to swap the
    /// code.
    pub fn upgrade(&mut self, admin: ActorId, new_wasm_hash: Vec<u8>, now: u64) -> (r: Result<ContractUpgradedEvent, InheritanceError>)
        requires
            old(self).wf(),
        ensures
            final(self).wf(),
            r is Ok <==> old(self).upgrade_verdict(admin) is Ok,
            r matches Err(e) ==> old(self).upgrade_verdict(admin) == Err::<u32, _>(e),
            r matches Ok(ev) ==> {
                &&& ev.old_version == old(self).current_version()
                &&& Ok::<u32, InheritanceError>(ev.new_version) == old(self).upgrade_verdict(admin)
                &&& ev.new_wasm_hash@ == new_wasm_hash@
                &&& ev.admin == admin
                &&& ev.upgraded_at == now
                &&& final(self).stored_version() == Some(ev.new_version)
                &&& final(self).audit() == old(self).audit().push(
                    AuditLogEntry {
                        actor_id: Some(admin),
                        action: AuditAction::ContractUpgraded,
                        entity_id: None,
                        entity_type: Some(EntityType::Contract),
                        timestamp: now,
                    },
                )
            },
            r is Err ==> final(self).stored_version() == old(self).stored_version() && final(self).audit()
                == old(self).audit(),
            final(self).plans() == old(self).plans(),
            final(self).claims() == old(self).claims(),
            final(self).claimed_ids() == old(self).claimed_ids(),
            final(self).deactivated_ids() == old(self).deactivated_ids(),
            final(self).kyc() == old(self).kyc(),
            final(self).admin() == old(self).admin(),
            final(self).policy() == old(self).policy(),
    {
        if let Err(e) = self.require_admin(admin) {
            return Err(e);
        }
        let old_version = self.version();
        if old_version == u32::MAX {
            return Err(InheritanceError::UpgradeFailed);
        }
        let new_version = old_version + 1;
        self.version = Some(new_version);
        self.log(Some(admin), AuditAction::ContractUpgraded, None, Some(EntityType::Contract), now);
        Ok(ContractUpgradedEvent { old_version, new_version, new_wasm_hash, admin, upgraded_at: now })
    }

    /// Verdict of `migrate`.
    pub open spec fn migrate_verdict(&self, admin: ActorId) -> Result<(), InheritanceError> {
        if self.admin_verdict(admin) is Err {
            self.admin_verdict(admin)
        } else if self.stored_version() matches Some(v) && v >= CONTRACT_VERSION {
            Err(InheritanceError::MigrationNotRequired)
        } else {
            Ok(())
        }
    }

    /// Brings the stored version record up to this logic's version
    /// (administrator only); refused with `MigrationNotRequired`, and
    /// without effect, when it is already there.
    pub fn migrate(&mut self, admin: ActorId, now: u64) -> (r: Result<(), InheritanceError>)
        requires
            old(self).wf(),
        ensures
            final(self).wf(),
            r == old(self).migrate_verdict(admin),
            r is Ok ==> final(self).stored_version() == Some(CONTRACT_VERSION) && final(self).audit()
                == old(self).audit().push(
                AuditLogEntry {
                    actor_id: Some(admin),
                    action: AuditAction::ContractMigrated,
                    entity_id: None,
                    entity_type: Some(EntityType::Contract),
                    timestamp: now,
                },
            ),
            r is Err ==> final(self).stored_version() == old(self).stored_version() && final(self).audit()
                == old(self).audit(),
            final(self).plans() == old(self).plans(),
            final(self).claims() == old(self).claims(),
            final(self).claimed_ids() == old(self).claimed_ids(),
            final(self).deactivated_ids() == old(self).deactivated_ids(),
            final(self).kyc() == old(self).kyc(),
            final(self).admin() == old(self).admin(),
            final(self).policy() == old(self).policy(),
    {
        if let Err(e) = self.require_admin(admin) {
            return Err(e);
        }
        let stored = match self.version {
            Some(v) => v,
            None => 0,
        };
        if stored >= CONTRACT_VERSION {
            return Err(InheritanceError::MigrationNotRequired);
        }
        self.version = Some(CONTRACT_VERSION);
        self.log(Some(admin), AuditAction::ContractMigrated, None, Some(EntityType::Contract), now);
        Ok(())
    }
}

} // verus!
