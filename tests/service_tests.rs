use inheritx::service::{ApiError, CurrencyPreference, DueCandidate, KycService, KycStatus, PlanService};
use std::str::FromStr;

#[test]
fn currency_preference_accepts_usdc() {
    assert_eq!(CurrencyPreference::from_str("USDC").unwrap(), CurrencyPreference::Usdc);
    assert_eq!(CurrencyPreference::from_str("usdc").unwrap(), CurrencyPreference::Usdc);
    assert_eq!(CurrencyPreference::Usdc.as_str(), "USDC");
}

#[test]
fn currency_preference_accepts_fiat() {
    assert_eq!(CurrencyPreference::from_str("FIAT").unwrap(), CurrencyPreference::Fiat);
    assert_eq!(CurrencyPreference::from_str("fiat").unwrap(), CurrencyPreference::Fiat);
    assert_eq!(CurrencyPreference::Fiat.as_str(), "FIAT");
}

#[test]
fn currency_preference_rejects_invalid() {
    let err = CurrencyPreference::from_str("EUR").unwrap_err();
    assert!(matches!(err, ApiError::BadRequest(_)));
    assert!(err.to_string().contains("USDC or FIAT"));
}

#[test]
fn validate_beneficiary_usdc_does_not_require_bank() {
    assert!(PlanService::validate_beneficiary_for_currency(&CurrencyPreference::Usdc, None, None, None).is_ok());
    assert!(PlanService::validate_beneficiary_for_currency(&CurrencyPreference::Usdc, Some(""), Some(""), None).is_ok());
}

#[test]
fn validate_beneficiary_fiat_requires_all_fields() {
    assert!(PlanService::validate_beneficiary_for_currency(&CurrencyPreference::Fiat, None, None, None).is_err());
    assert!(PlanService::validate_beneficiary_for_currency(&CurrencyPreference::Fiat, Some("Jane Doe"), None, None).is_err());
    assert!(PlanService::validate_beneficiary_for_currency(
        &CurrencyPreference::Fiat,
        Some("Jane Doe"),
        Some("Acme Bank"),
        None
    )
    .is_err());
    assert!(PlanService::validate_beneficiary_for_currency(
        &CurrencyPreference::Fiat,
        Some("Jane Doe"),
        Some("Acme Bank"),
        Some("12345678")
    )
    .is_ok());
}

#[test]
fn validate_beneficiary_fiat_rejects_whitespace_only() {
    assert!(PlanService::validate_beneficiary_for_currency(
        &CurrencyPreference::Fiat,
        Some("  "),
        Some("Acme Bank"),
        Some("12345678")
    )
    .is_err());
}

#[test]
fn fiat_details_with_surrounding_spaces_are_accepted() {
    assert!(PlanService::validate_beneficiary_for_currency(
        &CurrencyPreference::Fiat,
        Some("  Jane Doe "),
        Some("\tAcme Bank"),
        Some(" 12345678\n")
    )
    .is_ok());
    let err = PlanService::validate_beneficiary_for_currency(
        &CurrencyPreference::Fiat,
        Some("Jane Doe"),
        Some(" \t\n "),
        Some("12345678"),
    )
    .unwrap_err();
    assert!(err.to_string().contains("required for FIAT payouts"));
}

#[test]
fn trimmed_details_are_checked_as_given() {
    assert!(PlanService::validate_trimmed_for_currency(&CurrencyPreference::Fiat, Some("a"), Some("b"), Some("c")).is_ok());
    assert!(PlanService::validate_trimmed_for_currency(&CurrencyPreference::Fiat, Some("a"), Some(""), Some("c")).is_err());
    assert!(PlanService::validate_trimmed_for_currency(&CurrencyPreference::Usdc, None, None, None).is_ok());
}

#[test]
fn due_for_claim_follows_the_schedule() {
    let day: i64 = 86400;
    assert!(PlanService::is_due_for_claim_at(Some("LumpSum"), Some(1000), 1000));
    assert!(!PlanService::is_due_for_claim_at(Some("Monthly"), Some(0), 30 * day - 1));
    assert!(PlanService::is_due_for_claim_at(Some("Monthly"), Some(0), 30 * day));
    assert!(!PlanService::is_due_for_claim_at(Some("Quarterly"), Some(0), 90 * day - 1));
    assert!(PlanService::is_due_for_claim_at(Some("Quarterly"), Some(0), 90 * day));
    assert!(!PlanService::is_due_for_claim_at(Some("Yearly"), Some(0), 365 * day - 1));
    assert!(PlanService::is_due_for_claim_at(Some("Yearly"), Some(0), 365 * day));
    assert!(!PlanService::is_due_for_claim_at(Some("Weekly"), Some(0), 365 * day));
    assert!(!PlanService::is_due_for_claim_at(None, Some(0), 365 * day));
    assert!(!PlanService::is_due_for_claim_at(Some("LumpSum"), None, 365 * day));
    assert!(PlanService::is_due_for_claim_at(Some("Monthly"), Some(i64::MIN), i64::MAX));
}

#[test]
fn due_for_claim_now_uses_the_clock() {
    assert!(PlanService::is_due_for_claim(Some("LumpSum"), Some(0)));
    assert!(PlanService::is_due_for_claim(Some("Yearly"), Some(0)));
    assert!(!PlanService::is_due_for_claim(Some("Monthly"), Some(i64::MAX)));
    assert!(!PlanService::is_due_for_claim(None, Some(0)));
}

#[test]
fn cancel_refused_for_deactivated_or_claimed_plans() {
    let err = PlanService::check_cancellable("deactivated").unwrap_err();
    assert!(matches!(err, ApiError::BadRequest(_)));
    assert_eq!(err.to_string(), "Plan is already deactivated");
    let err = PlanService::check_cancellable("claimed").unwrap_err();
    assert_eq!(err.to_string(), "Cannot cancel a plan that has been claimed");
    assert!(PlanService::check_cancellable("pending").is_ok());
}

#[test]
fn claim_checks_currency_details_and_schedule() {
    let day: i64 = 86400;
    let err = PlanService::check_claimable_at(None, None, None, None, Some("LumpSum"), Some(0), 0).unwrap_err();
    assert_eq!(err.to_string(), "Plan has no currency preference set");
    let err = PlanService::check_claimable_at(Some("EUR"), None, None, None, Some("LumpSum"), Some(0), 0).unwrap_err();
    assert!(err.to_string().contains("USDC or FIAT"));
    let err = PlanService::check_claimable_at(Some("FIAT"), Some("Jane"), None, Some("1"), Some("LumpSum"), Some(0), 0)
        .unwrap_err();
    assert!(matches!(err, ApiError::BadRequest(_)));
    let err = PlanService::check_claimable_at(Some("USDC"), None, None, None, Some("Monthly"), Some(0), 10 * day)
        .unwrap_err();
    assert!(matches!(err, ApiError::Forbidden(_)));
    assert_eq!(err.to_string(), "Plan is not yet due for claim");
    assert!(PlanService::check_claimable_at(Some("usdc"), None, None, None, Some("Monthly"), Some(0), 31 * day).is_ok());
    assert!(PlanService::check_claimable(Some("USDC"), None, None, None, Some("LumpSum"), Some(0)).is_ok());
    assert!(PlanService::check_claimable(None, None, None, None, Some("LumpSum"), Some(0)).is_err());
}

#[test]
fn kyc_status_names_round_trip() {
    for s in [KycStatus::Pending, KycStatus::Approved, KycStatus::Rejected] {
        assert_eq!(KycStatus::parse(s.as_str()), s);
    }
    assert_eq!(KycStatus::parse("unknown"), KycStatus::Pending);
    assert_eq!(KycService::status_of(None), KycStatus::Pending);
    assert_eq!(KycService::status_of(Some("approved")), KycStatus::Approved);
    assert_eq!(KycService::status_of(Some("rejected")), KycStatus::Rejected);
}

fn candidate(status: &str, active: Option<bool>, method: Option<&str>, created: Option<i64>, claimed: bool) -> DueCandidate {
    DueCandidate {
        status: status.to_string(),
        is_active: active,
        distribution_method: method.map(|m| m.to_string()),
        contract_created_at: created,
        has_claim: claimed,
    }
}

#[test]
fn due_listing_keeps_only_open_due_unclaimed_plans() {
    let day: i64 = 86400;
    let rows = vec![
        candidate("pending", Some(true), Some("LumpSum"), Some(0), false),
        candidate("pending", None, Some("Monthly"), Some(0), false),
        candidate("pending", Some(false), Some("LumpSum"), Some(0), false),
        candidate("claimed", Some(true), Some("LumpSum"), Some(0), false),
        candidate("deactivated", None, Some("LumpSum"), Some(0), false),
        candidate("pending", Some(true), Some("LumpSum"), Some(0), true),
        candidate("pending", Some(true), Some("Yearly"), Some(0), false),
        candidate("pending", Some(true), None, Some(0), false),
    ];
    assert_eq!(PlanService::select_due_for_claim(&rows, 31 * day), vec![0, 1]);
    assert_eq!(PlanService::select_due_for_claim(&rows, 10 * day), vec![0]);
    assert_eq!(PlanService::select_due_for_claim(&rows, 400 * day), vec![0, 1, 6]);
    assert!(PlanService::is_listed_as_due(&rows[6], 365 * day));
    assert!(!PlanService::is_listed_as_due(&rows[5], 365 * day));
    assert_eq!(PlanService::select_due_for_claim_now(&rows), vec![0, 1, 6]);
}

#[test]
fn plan_fields_are_trimmed_and_checked() {
    let f = PlanService::prepare_plan_fields(" fiat ", Some(" Jane "), Some("Acme\t"), Some("\n123")).unwrap();
    assert_eq!(f.currency, CurrencyPreference::Fiat);
    assert_eq!(f.beneficiary_name.as_deref(), Some("Jane"));
    assert_eq!(f.bank_name.as_deref(), Some("Acme"));
    assert_eq!(f.bank_account_number.as_deref(), Some("123"));
    let f = PlanService::prepare_plan_fields("USDC", None, Some(" x "), None).unwrap();
    assert_eq!(f.currency, CurrencyPreference::Usdc);
    assert_eq!(f.beneficiary_name, None);
    assert_eq!(f.bank_name.as_deref(), Some("x"));
    let err = PlanService::prepare_plan_fields("EUR", None, None, None).unwrap_err();
    assert!(err.to_string().contains("USDC or FIAT"));
    assert!(PlanService::prepare_plan_fields("FIAT", Some("Jane"), None, Some("1")).is_err());
}
