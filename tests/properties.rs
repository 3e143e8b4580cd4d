use inheritx::allocation::{validate_add, BeneficiaryData};
use inheritx::contract::InheritanceContract;
use inheritx::digest::{claim_key, DIGEST_LEN};
use inheritx::eligibility::{is_claim_time_valid, waiting_period_secs, DistributionMethod, SECONDS_PER_DAY};
use inheritx::error::InheritanceError;
use inheritx::model::{AuditAction, BeneficiaryInput, KycPolicy};

const DAY: u64 = 86400;
const OWNER: u64 = 1;
const ADMIN: u64 = 7;
const ANYONE: u64 = 900;

fn entry(name: &str, email: &str, code: u32, bp: u32) -> BeneficiaryData {
    (name.to_string(), email.to_string(), code, b"00110022".to_vec(), bp)
}

fn add_input(name: &str, email: &str, code: u32, bp: u32) -> BeneficiaryInput {
    BeneficiaryInput {
        name: name.to_string(),
        email: email.to_string(),
        claim_code: code,
        bank_account: b"99887766".to_vec(),
        allocation_bp: bp,
    }
}

fn create(c: &mut InheritanceContract, method: DistributionMethod, data: Vec<BeneficiaryData>, now: u64) -> Result<u64, InheritanceError> {
    c.create_inheritance_plan(OWNER, "Estate".to_string(), "For the family".to_string(), 500000, method, data, now)
}

#[test]
fn creation_accepts_exact_full_allocations() {
    let mut c = InheritanceContract::new();
    assert_eq!(create(&mut c, DistributionMethod::LumpSum, vec![entry("A", "a@x.io", 1, 10000)], 0), Ok(1));
    let ten: Vec<BeneficiaryData> = (0..10u32).map(|i| entry("N", &format!("n{}@x.io", i), i, 1000)).collect();
    assert_eq!(create(&mut c, DistributionMethod::LumpSum, ten, 0), Ok(2));
    let uneven = vec![entry("A", "a@x.io", 1, 1), entry("B", "b@x.io", 2, 9999)];
    assert_eq!(create(&mut c, DistributionMethod::Yearly, uneven, 0), Ok(3));
}

#[test]
fn creation_refuses_other_allocations() {
    let mut c = InheritanceContract::new();
    assert_eq!(create(&mut c, DistributionMethod::LumpSum, vec![], 0), Err(InheritanceError::MissingRequiredField));
    let eleven: Vec<BeneficiaryData> = (0..11u32).map(|i| entry("N", "n@x.io", i, 1000)).collect();
    assert_eq!(create(&mut c, DistributionMethod::LumpSum, eleven, 0), Err(InheritanceError::TooManyBeneficiaries));
    let short = vec![entry("A", "a@x.io", 1, 5000), entry("B", "b@x.io", 2, 4999)];
    assert_eq!(create(&mut c, DistributionMethod::LumpSum, short, 0), Err(InheritanceError::AllocationPercentageMismatch));
    let over = vec![entry("A", "a@x.io", 1, 5000), entry("B", "b@x.io", 2, 5001)];
    assert_eq!(create(&mut c, DistributionMethod::LumpSum, over, 0), Err(InheritanceError::AllocationPercentageMismatch));
    let zero = vec![entry("A", "a@x.io", 1, 10000), entry("B", "b@x.io", 2, 0)];
    assert_eq!(create(&mut c, DistributionMethod::LumpSum, zero, 0), Err(InheritanceError::InvalidAllocation));
    let huge = vec![entry("A", "a@x.io", 1, u32::MAX), entry("B", "b@x.io", 2, 10001)];
    assert_eq!(create(&mut c, DistributionMethod::LumpSum, huge, 0), Err(InheritanceError::AllocationPercentageMismatch));
    assert!(c.get_plan_details(1).is_none());
}

#[test]
fn creation_refuses_bad_plan_fields() {
    let mut c = InheritanceContract::new();
    let one = || vec![entry("A", "a@x.io", 1, 10000)];
    let r = c.create_inheritance_plan(OWNER, String::new(), "d".to_string(), 1, DistributionMethod::LumpSum, one(), 0);
    assert_eq!(r, Err(InheritanceError::MissingRequiredField));
    let long: String = "é".repeat(501);
    let r = c.create_inheritance_plan(OWNER, "t".to_string(), long, 1, DistributionMethod::LumpSum, one(), 0);
    assert_eq!(r, Err(InheritanceError::DescriptionTooLong));
    let at_limit: String = "é".repeat(500);
    let r = c.create_inheritance_plan(OWNER, "t".to_string(), at_limit, 1, DistributionMethod::LumpSum, one(), 0);
    assert_eq!(r, Ok(1));
    let r = c.create_inheritance_plan(OWNER, "t".to_string(), "d".to_string(), 0, DistributionMethod::LumpSum, one(), 0);
    assert_eq!(r, Err(InheritanceError::InvalidTotalAmount));
    assert_eq!(
        InheritanceContract::validate_plan_inputs("t", "d", "XLM", 1),
        Err(InheritanceError::InvalidAssetType)
    );
    let r = c.create_inheritance_plan(OWNER, "t".to_string(), "d".to_string(), 1, DistributionMethod::LumpSum, vec![entry("A", "", 1, 10000)], 0);
    assert_eq!(r, Err(InheritanceError::InvalidBeneficiaryData));
    let r = c.create_inheritance_plan(OWNER, "t".to_string(), "d".to_string(), 1, DistributionMethod::LumpSum, vec![entry("A", "a@x.io", 1000000, 10000)], 0);
    assert_eq!(r, Err(InheritanceError::InvalidClaimCodeRange));
    let stored = c.get_plan_details(1).unwrap();
    assert_eq!(stored.asset_type, "USDC");
    assert_eq!(stored.total_allocation_bp, 10000);
}

#[test]
fn repeated_claims_succeed_exactly_once() {
    let mut c = InheritanceContract::new();
    let id = create(&mut c, DistributionMethod::LumpSum, vec![entry("A", "heir@x.io", 424242, 10000)], 0).unwrap();
    let mut successes = 0;
    let mut already = 0;
    for attempt in 0..8u64 {
        match c.claim_inheritance_plan(ANYONE + attempt, id, "heir@x.io", 424242, attempt) {
            Ok(record) => {
                successes += 1;
                assert_eq!(record.plan_id, id);
                assert_eq!(record.beneficiary_index, 0);
            }
            Err(InheritanceError::AlreadyClaimed) => already += 1,
            Err(other) => panic!("unexpected {:?}", other),
        }
    }
    assert_eq!(successes, 1);
    assert_eq!(already, 7);
    assert_eq!(c.get_user_claimed_plans(OWNER).len(), 1);
}

#[test]
fn each_beneficiary_claims_once() {
    let mut c = InheritanceContract::new();
    let data = vec![entry("A", "a@x.io", 111, 6000), entry("B", "b@x.io", 222, 4000)];
    let id = create(&mut c, DistributionMethod::LumpSum, data, 0).unwrap();
    assert_eq!(c.claim_inheritance_plan(ANYONE, id, "b@x.io", 222, 5).map(|r| r.beneficiary_index), Ok(1));
    assert_eq!(c.claim_inheritance_plan(ANYONE, id, "a@x.io", 111, 6).map(|r| r.beneficiary_index), Ok(0));
    assert_eq!(c.claim_inheritance_plan(ANYONE, id, "a@x.io", 111, 7), Err(InheritanceError::AlreadyClaimed));
    assert_eq!(c.claim_inheritance_plan(ANYONE, id, "a@x.io", 222, 7), Err(InheritanceError::BeneficiaryNotFound));
    assert_eq!(c.claim_inheritance_plan(ANYONE, id, "c@x.io", 111, 7), Err(InheritanceError::BeneficiaryNotFound));
    assert_eq!(c.claim_inheritance_plan(ANYONE, id, "a@x.io", 1000000, 7), Err(InheritanceError::InvalidClaimCodeRange));
    assert_eq!(c.claim_inheritance_plan(ANYONE, 99, "a@x.io", 111, 7), Err(InheritanceError::PlanNotFound));
    assert_eq!(c.get_user_claimed_plans(OWNER).len(), 1);
}

#[test]
fn migration_runs_once_when_outdated() {
    let mut c = InheritanceContract::new();
    c.initialize_admin(ADMIN, 0).unwrap();
    let mut c = c.with_stored_version(0);
    assert_eq!(c.migrate(ADMIN, 10), Ok(()));
    assert_eq!(c.version(), 1);
    let logs_after_first = c.list_audit_logs(ADMIN).unwrap().len();
    assert_eq!(c.migrate(ADMIN, 11), Err(InheritanceError::MigrationNotRequired));
    assert_eq!(c.version(), 1);
    assert_eq!(c.list_audit_logs(ADMIN).unwrap().len(), logs_after_first);
}

#[test]
fn migration_without_record_and_admin_checks() {
    let mut c = InheritanceContract::new();
    assert_eq!(c.migrate(ADMIN, 0), Err(InheritanceError::AdminNotSet));
    c.initialize_admin(ADMIN, 0).unwrap();
    assert_eq!(c.migrate(ADMIN + 1, 0), Err(InheritanceError::NotAdmin));
    assert_eq!(c.migrate(ADMIN, 0), Ok(()));
    assert_eq!(c.migrate(ADMIN, 0), Err(InheritanceError::MigrationNotRequired));
}

#[test]
fn scenario_allocation_limit_then_room_after_removal() {
    let mut c = InheritanceContract::new();
    let id = create(&mut c, DistributionMethod::LumpSum, vec![entry("A", "a@x.io", 1, 5000), entry("B", "b@x.io", 2, 5000)], 0).unwrap();
    let r = c.add_beneficiary(OWNER, id, add_input("C", "c@x.io", 3, 2000), 1);
    assert_eq!(r.err(), Some(InheritanceError::AllocationExceedsLimit));
    let removed = c.remove_beneficiary(OWNER, id, 0, 2).unwrap();
    assert_eq!(removed.allocation_bp, 5000);
    assert_eq!(c.get_plan_details(id).unwrap().total_allocation_bp, 5000);
    let added = c.add_beneficiary(OWNER, id, add_input("C", "c@x.io", 3, 2000), 3).unwrap();
    assert_eq!(added.plan_id, id);
    assert_eq!(added.hashed_email, InheritanceContract::hash_string("c@x.io"));
    let plan = c.get_plan_details(id).unwrap();
    assert_eq!(plan.total_allocation_bp, 7000);
    assert_eq!(plan.beneficiaries.len(), 2);
    assert_eq!(plan.beneficiaries[0].hashed_email, InheritanceContract::hash_string("b@x.io"));
    assert_eq!(plan.beneficiaries[1].allocation_bp, 2000);
}

#[test]
fn removal_swaps_in_the_last_beneficiary() {
    let mut c = InheritanceContract::new();
    let data = vec![entry("A", "a@x.io", 1, 2000), entry("B", "b@x.io", 2, 3000), entry("C", "c@x.io", 3, 5000)];
    let id = create(&mut c, DistributionMethod::LumpSum, data, 0).unwrap();
    c.remove_beneficiary(OWNER, id, 0, 1).unwrap();
    let plan = c.get_plan_details(id).unwrap();
    assert_eq!(plan.beneficiaries[0].hashed_email, InheritanceContract::hash_string("c@x.io"));
    assert_eq!(plan.beneficiaries[1].hashed_email, InheritanceContract::hash_string("b@x.io"));
    assert_eq!(plan.total_allocation_bp, 8000);
    c.remove_beneficiary(OWNER, id, 1, 1).unwrap();
    let plan = c.get_plan_details(id).unwrap();
    assert_eq!(plan.beneficiaries.len(), 1);
    assert_eq!(plan.total_allocation_bp, 5000);
    assert_eq!(c.remove_beneficiary(OWNER, id, 1, 1).err(), Some(InheritanceError::InvalidBeneficiaryIndex));
}

#[test]
fn additions_stop_at_ten_beneficiaries() {
    let mut c = InheritanceContract::new();
    let id = create(&mut c, DistributionMethod::LumpSum, vec![entry("A", "a@x.io", 1, 10000)], 0).unwrap();
    c.remove_beneficiary(OWNER, id, 0, 0).unwrap();
    for i in 0..10u32 {
        c.add_beneficiary(OWNER, id, add_input("N", &format!("n{}@x.io", i), i, 100), 0).unwrap();
    }
    let r = c.add_beneficiary(OWNER, id, add_input("N", "late@x.io", 5, 100), 0);
    assert_eq!(r.err(), Some(InheritanceError::TooManyBeneficiaries));
    assert_eq!(c.add_beneficiary(OWNER + 1, id, add_input("N", "x@x.io", 5, 1), 0).err(), Some(InheritanceError::Unauthorized));
    assert_eq!(c.add_beneficiary(OWNER, 77, add_input("N", "x@x.io", 5, 1), 0).err(), Some(InheritanceError::PlanNotFound));
}

#[test]
fn scenario_monthly_plan_waits_thirty_days() {
    let mut c = InheritanceContract::new();
    let t0: u64 = 1_700_000_000;
    let id = create(&mut c, DistributionMethod::Monthly, vec![entry("A", "heir@x.io", 123, 10000)], t0).unwrap();
    assert_eq!(c.claim_inheritance_plan(ANYONE, id, "heir@x.io", 123, t0 + 10 * DAY), Err(InheritanceError::ClaimNotAllowedYet));
    let record = c.claim_inheritance_plan(ANYONE, id, "heir@x.io", 123, t0 + 31 * DAY).unwrap();
    assert_eq!(record.claimed_at, t0 + 31 * DAY);
    assert_eq!(record.beneficiary_index, 0);
}

#[test]
fn scenario_second_approval_refused() {
    let mut c = InheritanceContract::new();
    c.initialize_admin(ADMIN, 0).unwrap();
    c.submit_kyc(20, 1).unwrap();
    let ev = c.approve_kyc(ADMIN, 20, 2).unwrap();
    assert_eq!(ev.user, 20);
    assert_eq!(ev.approved_at, 2);
    assert_eq!(c.approve_kyc(ADMIN, 20, 3).err(), Some(InheritanceError::KycAlreadyApproved));
    assert_eq!(c.submit_kyc(20, 4), Err(InheritanceError::KycAlreadyApproved));
    assert!(c.is_kyc_approved(20));
}

#[test]
fn kyc_errors_and_rejection() {
    let mut c = InheritanceContract::new();
    assert_eq!(c.approve_kyc(ADMIN, 20, 0).err(), Some(InheritanceError::AdminNotSet));
    c.initialize_admin(ADMIN, 0).unwrap();
    assert_eq!(c.initialize_admin(ADMIN + 1, 0), Err(InheritanceError::AdminAlreadyInitialized));
    assert_eq!(c.get_admin(), Some(ADMIN));
    assert_eq!(c.reject_kyc(ADMIN, 20, 0).err(), Some(InheritanceError::KycNotSubmitted));
    c.submit_kyc(20, 5).unwrap();
    assert_eq!(c.reject_kyc(ADMIN + 1, 20, 0).err(), Some(InheritanceError::NotAdmin));
    let ev = c.reject_kyc(ADMIN, 20, 9).unwrap();
    assert_eq!(ev.rejected_at, 9);
    assert_eq!(c.reject_kyc(ADMIN, 20, 10).err(), Some(InheritanceError::KycAlreadyRejected));
    let status = c.kyc_status(20).unwrap();
    assert_eq!(status.submitted_at, 5);
    assert!(!c.is_kyc_approved(20));
    assert!(c.kyc_status(21).is_none());
}

#[test]
fn scenario_deactivation_is_final() {
    let mut c = InheritanceContract::new();
    let id = create(&mut c, DistributionMethod::Yearly, vec![entry("A", "heir@x.io", 123, 10000)], 0).unwrap();
    let ev = c.deactivate_inheritance_plan(OWNER, id, 50).unwrap();
    assert_eq!(ev.total_amount, 500000);
    assert_eq!(ev.deactivated_at, 50);
    assert_eq!(c.deactivate_inheritance_plan(OWNER, id, 51).err(), Some(InheritanceError::PlanAlreadyDeactivated));
    assert_eq!(c.claim_inheritance_plan(ANYONE, id, "heir@x.io", 123, 1000 * DAY), Err(InheritanceError::PlanNotActive));
    assert_eq!(c.claim_inheritance_plan(ANYONE, id, "heir@x.io", 123, 1), Err(InheritanceError::PlanNotActive));
    assert_eq!(
        c.add_beneficiary(OWNER, id, add_input("B", "b@x.io", 1, 1), 52).err(),
        Some(InheritanceError::PlanNotActive)
    );
    assert!(c.get_deactivated_plan(OWNER, id).is_ok());
}

#[test]
fn deactivated_and_claimed_lookups() {
    let mut c = InheritanceContract::new();
    let id = create(&mut c, DistributionMethod::LumpSum, vec![entry("A", "heir@x.io", 123, 10000)], 0).unwrap();
    assert_eq!(c.get_deactivated_plan(OWNER, id).err(), Some(InheritanceError::PlanNotActive));
    assert_eq!(c.get_deactivated_plan(OWNER + 1, id).err(), Some(InheritanceError::Unauthorized));
    assert_eq!(c.get_deactivated_plan(OWNER, 5).err(), Some(InheritanceError::PlanNotFound));
    assert_eq!(c.get_claimed_plan(OWNER, id).err(), Some(InheritanceError::PlanNotClaimed));
}

#[test]
fn kyc_policy_gates_creation_and_claims() {
    let mut c = InheritanceContract::with_kyc_policy(KycPolicy { gate_plan_creation: true, gate_claims: true });
    let data = || vec![entry("A", "heir@x.io", 123, 10000)];
    assert_eq!(create(&mut c, DistributionMethod::LumpSum, data(), 0), Err(InheritanceError::KycNotApproved));
    c.initialize_admin(ADMIN, 0).unwrap();
    c.submit_kyc(OWNER, 0).unwrap();
    c.approve_kyc(ADMIN, OWNER, 0).unwrap();
    let id = create(&mut c, DistributionMethod::LumpSum, data(), 0).unwrap();
    assert_eq!(c.claim_inheritance_plan(ANYONE, id, "heir@x.io", 123, 0), Err(InheritanceError::KycNotApproved));
    c.submit_kyc(ANYONE, 0).unwrap();
    c.approve_kyc(ADMIN, ANYONE, 0).unwrap();
    assert!(c.claim_inheritance_plan(ANYONE, id, "heir@x.io", 123, 0).is_ok());
}

#[test]
fn audit_trail_records_each_transition() {
    let mut c = InheritanceContract::new();
    c.initialize_admin(ADMIN, 1).unwrap();
    let id = create(&mut c, DistributionMethod::LumpSum, vec![entry("A", "heir@x.io", 123, 10000)], 2).unwrap();
    c.claim_inheritance_plan(ANYONE, id, "heir@x.io", 123, 3).unwrap();
    c.deactivate_inheritance_plan(OWNER, id, 4).unwrap();
    assert!(c.deactivate_inheritance_plan(OWNER, id, 5).is_err());
    let logs = c.list_audit_logs(ADMIN).unwrap();
    let actions: Vec<AuditAction> = logs.iter().map(|e| e.action).collect();
    assert_eq!(
        actions,
        vec![AuditAction::AdminInitialized, AuditAction::PlanCreated, AuditAction::ClaimSuccess, AuditAction::PlanDeactivated]
    );
    assert_eq!(logs[1].actor_id, Some(OWNER));
    assert_eq!(logs[1].entity_id, Some(id));
    assert_eq!(logs[2].timestamp, 3);
    assert_eq!(c.list_audit_logs(OWNER).err(), Some(InheritanceError::NotAdmin));
}

#[test]
fn upgrade_advances_the_version() {
    let mut c = InheritanceContract::new();
    c.initialize_admin(ADMIN, 0).unwrap();
    let ev = c.upgrade(ADMIN, vec![9u8; 32], 12).unwrap();
    assert_eq!(ev.old_version, 1);
    assert_eq!(ev.new_version, 2);
    assert_eq!(ev.new_wasm_hash, vec![9u8; 32]);
    assert_eq!(c.version(), 2);
    let mut c = c.with_stored_version(u32::MAX);
    assert_eq!(c.upgrade(ADMIN, vec![1u8; 32], 13).err(), Some(InheritanceError::UpgradeFailed));
}

#[test]
fn digests_are_fixed_width_and_depend_on_the_input() {
    let h = InheritanceContract::hash_string("alice@example.com");
    assert_eq!(h.len(), DIGEST_LEN);
    assert_ne!(h, b"alice@example.com".to_vec());
    assert_ne!(h, InheritanceContract::hash_string("bobby@example.com"));
    assert_eq!(h, InheritanceContract::hash_bytes(b"alice@example.com"));
    let empty = InheritanceContract::hash_bytes(b"");
    assert_eq!(
        empty[..4].to_vec(),
        vec![0xe3, 0xb0, 0xc4, 0x42],
    );
    let code = InheritanceContract::hash_claim_code(42).unwrap();
    assert_eq!(code, InheritanceContract::hash_bytes(b"000042"));
    assert_ne!(InheritanceContract::hash_claim_code(42).unwrap(), InheritanceContract::hash_claim_code(420000).unwrap());
    let key = claim_key(1, &h);
    let mut raw = vec![0u8, 0, 0, 0, 0, 0, 0, 1];
    raw.extend_from_slice(&h);
    assert_eq!(key, InheritanceContract::hash_bytes(&raw));
    assert_ne!(key, claim_key(2, &h));
}

#[test]
fn schedule_thresholds() {
    assert_eq!(SECONDS_PER_DAY, 86400);
    assert_eq!(waiting_period_secs(DistributionMethod::LumpSum), 0);
    assert_eq!(waiting_period_secs(DistributionMethod::Monthly), 2_592_000);
    assert_eq!(waiting_period_secs(DistributionMethod::Quarterly), 7_776_000);
    assert_eq!(waiting_period_secs(DistributionMethod::Yearly), 31_536_000);
    assert!(is_claim_time_valid(DistributionMethod::LumpSum, 100, 0));
    assert!(!is_claim_time_valid(DistributionMethod::Monthly, 100, 99));
    assert!(!is_claim_time_valid(DistributionMethod::Quarterly, 0, 90 * DAY - 1));
    assert!(is_claim_time_valid(DistributionMethod::Quarterly, 0, 90 * DAY));
    assert!(is_claim_time_valid(DistributionMethod::Yearly, 5, 5 + 365 * DAY));
}

#[test]
fn additions_check_the_allocation_rule() {
    assert_eq!(validate_add(7000, 3000), Ok(10000));
    assert_eq!(validate_add(7000, 3001), Err(InheritanceError::AllocationExceedsLimit));
    assert_eq!(validate_add(0, 0), Err(InheritanceError::InvalidAllocation));
    assert_eq!(validate_add(u32::MAX, u32::MAX), Err(InheritanceError::AllocationExceedsLimit));
}

#[test]
fn listings_follow_creation_and_event_order() {
    let mut c = InheritanceContract::new();
    c.initialize_admin(ADMIN, 0).unwrap();
    let data = || vec![entry("A", "heir@x.io", 123, 10000)];
    let first_plan = create(&mut c, DistributionMethod::LumpSum, data(), 0).unwrap();
    let other_plan = c.create_inheritance_plan(2, "Other".to_string(), "d".to_string(), 9, DistributionMethod::LumpSum, data(), 0).unwrap();
    let third_plan = create(&mut c, DistributionMethod::LumpSum, data(), 0).unwrap();
    c.deactivate_inheritance_plan(OWNER, third_plan, 0).unwrap();
    c.deactivate_inheritance_plan(OWNER, first_plan, 0).unwrap();
    let all = c.get_all_deactivated_plans(ADMIN).unwrap();
    assert_eq!(all.len(), 2);
    assert_eq!(c.get_user_deactivated_plans(OWNER).len(), 2);
    assert_eq!(c.get_user_plans(2).len(), 1);
    assert_eq!(c.get_user_plans(2)[0].plan_name, "Other");
    assert_eq!(c.get_user_pending_plans(OWNER).len(), 0);
    assert_eq!(c.get_all_pending_plans(ADMIN).unwrap().len(), 1);
    c.claim_inheritance_plan(ANYONE, other_plan, "heir@x.io", 123, 0).unwrap();
    assert_eq!(c.get_user_claimed_plans(OWNER).len(), 0);
    assert_eq!(c.get_user_claimed_plans(2).len(), 1);
    assert_eq!(c.get_claimed_plan(2, other_plan).unwrap().total_amount, 9);
}

#[test]
fn first_matching_beneficiary_is_found() {
    let bank = b"1".to_vec();
    let a = InheritanceContract::create_beneficiary("A", "same@x.io", 1, &bank, 10).unwrap();
    let b = InheritanceContract::create_beneficiary("B", "same@x.io", 2, &bank, 20).unwrap();
    let c = InheritanceContract::create_beneficiary("C", "same@x.io", 2, &bank, 30).unwrap();
    let bens = vec![a, b, c];
    let email = InheritanceContract::hash_string("same@x.io");
    let code2 = InheritanceContract::hash_claim_code(2).unwrap();
    let code3 = InheritanceContract::hash_claim_code(3).unwrap();
    assert_eq!(inheritx::contract::find_beneficiary(&bens, &email, &code2), Some(1));
    assert_eq!(inheritx::contract::find_beneficiary(&bens, &email, &code3), None);
    assert_eq!(inheritx::contract::find_beneficiary(&bens, &code2, &email), None);
}
