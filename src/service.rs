//! Payout-currency rules, claim-window checks and plan/identity status
//! rules applied by the service layer before it touches storage.

use vstd::prelude::*;
use vstd::string::*;
use crate::text::text_equals;

verus! {

/// Errors the service layer reports, each with a message for the caller.
#[derive(Debug, Clone)]
pub enum ApiError {
    BadRequest(String),
    NotFound(String),
    Forbidden(String),
    Unauthorized,
    Internal(String),
}

impl ApiError {
    /// The message carried by this error.
    pub fn to_string(&self) -> (r: String)
        ensures
            self matches ApiError::BadRequest(m) ==> r == m,
            self matches ApiError::NotFound(m) ==> r == m,
            self matches ApiError::Forbidden(m) ==> r == m,
            self matches ApiError::Internal(m) ==> r == m,
    {
        match self {
            ApiError::BadRequest(m) => m.clone(),
            ApiError::NotFound(m) => m.clone(),
            ApiError::Forbidden(m) => m.clone(),
            ApiError::Unauthorized => String::from_str("Unauthorized"),
            ApiError::Internal(m) => m.clone(),
        }
    }
}

/// Whether `e` is a bad request with message `msg`.
pub open spec fn bad_request_with(e: ApiError, msg: Seq<char>) -> bool {
    match e {
        ApiError::BadRequest(m) => m@ == msg,
        _ => false,
    }
}

/// Payout currency preference.
#[derive(Debug, Clone, Copy, PartialEq, Eq, Structural)]
pub enum CurrencyPreference {
    Usdc,
    Fiat,
}

/// The currency a text names, if it names one.
pub open spec fn currency_named(s: Seq<char>) -> Option<CurrencyPreference> {
    if s == "USDC"@ || s == "usdc"@ {
        Some(CurrencyPreference::Usdc)
    } else if s == "FIAT"@ || s == "fiat"@ {
        Some(CurrencyPreference::Fiat)
    } else {
        None
    }
}

impl CurrencyPreference {
    /// The canonical name of the currency.
    pub fn as_str(&self) -> (r: &'static str)
        ensures
            *self == CurrencyPreference::Usdc ==> r@ == "USDC"@,
            *self == CurrencyPreference::Fiat ==> r@ == "FIAT"@,
    {
        match self {
            CurrencyPreference::Usdc => "USDC",
            CurrencyPreference::Fiat => "FIAT",
        }
    }

    /// Reads a currency name, in upper or lower case.
    pub fn parse(s: &str) -> (r: Result<CurrencyPreference, ApiError>)
        ensures
            currency_named(s@) matches Some(c) ==> r == Ok::<_, ApiError>(c),
            currency_named(s@) is None ==> r is Err,
            r matches Err(e) ==> bad_request_with(e, "currency_preference must be USDC or FIAT"@),
    {
        if text_equals(s, "USDC") || text_equals(s, "usdc") {
            Ok(CurrencyPreference::Usdc)
        } else if text_equals(s, "FIAT") || text_equals(s, "fiat") {
            Ok(CurrencyPreference::Fiat)
        } else {
            Err(ApiError::BadRequest(String::from_str("currency_preference must be USDC or FIAT")))
        }
    }
}

impl std::str::FromStr for CurrencyPreference {
    type Err = ApiError;

    fn from_str(s: &str) -> Result<CurrencyPreference, ApiError> {
        CurrencyPreference::parse(s)
    }
}

/// A text with leading and trailing white space removed.
pub uninterp spec fn trimmed(s: Seq<char>) -> Seq<char>;

/// Relies on `str::trim`: the text without leading and trailing white
/// space; an empty text stays empty.
#[verifier::external_body]
fn trim_text<'a>(s: &'a str) -> (r: &'a str)
    ensures
        r@ == trimmed(s@),
        s@.len() == 0 ==> r@.len() == 0,
{
    s.trim()
}

/// A bank detail is present: given, and not blank once trimmed.
pub open spec fn detail_present(s: Option<&str>) -> bool {
    s matches Some(t) && trimmed(t@).len() > 0
}

/// A detail that is already trimmed is present: given and not empty.
pub open spec fn trimmed_present(s: Option<&str>) -> bool {
    s matches Some(t) && t@.len() > 0
}

/// The message of a refused payout without bank details.
pub open spec fn missing_bank_details_message() -> Seq<char> {
    "Bank account details (beneficiary_name, bank_name, bank_account_number) are required for FIAT payouts"@
}

/// Plan creation and claim rules of the service layer.
pub struct PlanService;

impl PlanService {
    /// Checks already-trimmed bank details: a FIAT payout needs a
    /// beneficiary name, a bank name and an account number.
    pub fn validate_trimmed_for_currency(
        currency: &CurrencyPreference,
        beneficiary_name: Option<&str>,
        bank_name: Option<&str>,
        bank_account_number: Option<&str>,
    ) -> (r: Result<(), ApiError>)
        ensures
            r is Ok <==> *currency == CurrencyPreference::Usdc || (trimmed_present(beneficiary_name)
                && trimmed_present(bank_name) && trimmed_present(bank_account_number)),
            r matches Err(e) ==> bad_request_with(e, missing_bank_details_message()),
    {
        if *currency == CurrencyPreference::Fiat {
            let name_ok = match beneficiary_name {
                Some(s) => s.unicode_len() > 0,
                None => false,
            };
            let bank_ok = match bank_name {
                Some(s) => s.unicode_len() > 0,
                None => false,
            };
            let account_ok = match bank_account_number {
                Some(s) => s.unicode_len() > 0,
                None => false,
            };
            if !name_ok || !bank_ok || !account_ok {
                return Err(
                    ApiError::BadRequest(
                        String::from_str(
                            "Bank account details (beneficiary_name, bank_name, bank_account_number) are required for FIAT payouts",
                        ),
                    ),
                );
            }
        }
        Ok(())
    }

    /// Validates that bank details are present and not blank when the
    /// currency is FIAT.
    pub fn validate_beneficiary_for_currency(
        currency: &CurrencyPreference,
        beneficiary_name: Option<&str>,
        bank_name: Option<&str>,
        bank_account_number: Option<&str>,
    ) -> (r: Result<(), ApiError>)
        ensures
            r is Ok <==> *currency == CurrencyPreference::Usdc || (detail_present(beneficiary_name)
                && detail_present(bank_name) && detail_present(bank_account_number)),
            r matches Err(e) ==> bad_request_with(e, missing_bank_details_message()),
    {
        let name = match beneficiary_name {
            Some(s) => Some(trim_text(s)),
            None => None,
        };
        let bank = match bank_name {
            Some(s) => Some(trim_text(s)),
            None => None,
        };
        let account = match bank_account_number {
            Some(s) => Some(trim_text(s)),
            None => None,
        };
        Self::validate_trimmed_for_currency(currency, name, bank, account)
    }
}

/// Relies on chrono's `Utc::now().timestamp()`: the current time in whole
/// seconds since the Unix epoch. Nothing is known of its value.
#[verifier::external_body]
fn unix_now() -> (r: i64) {
    chrono::Utc::now().timestamp()
}

/// Whether a plan with the given schedule name and on-chain creation time
/// is due for a claim at `now`; an unknown or missing schedule or time is
/// never due.
pub open spec fn due_at_text(method: Option<Seq<char>>, created_at: Option<i64>, now: i64) -> bool {
    match (method, created_at) {
        (Some(m), Some(c)) => {
            let elapsed = now - c;
            if m == "LumpSum"@ {
                true
            } else if m == "Monthly"@ {
                elapsed >= 30 * 86400
            } else if m == "Quarterly"@ {
                elapsed >= 90 * 86400
            } else if m == "Yearly"@ {
                elapsed >= 365 * 86400
            } else {
                false
            }
        },
        _ => false,
    }
}

/// `due_at_text` for a schedule name held as a text slice.
pub open spec fn due_at(method: Option<&str>, created_at: Option<i64>, now: i64) -> bool {
    due_at_text(
        match method {
            Some(m) => Some(m@),
            None => None,
        },
        created_at,
        now,
    )
}

/// What the due-for-claim listings read of a stored plan: its status text,
/// its active flag, its schedule and on-chain creation time, and whether a
/// claim on it is recorded.
#[derive(Debug)]
pub struct DueCandidate {
    pub status: String,
    pub is_active: Option<bool>,
    pub distribution_method: Option<String>,
    pub contract_created_at: Option<i64>,
    pub has_claim: bool,
}

/// A stored plan is listed as due for claim at `now`: it is not marked
/// inactive, neither claimed nor deactivated, due by its schedule, and no
/// claim on it is recorded.
pub open spec fn listed_as_due(c: DueCandidate, now: i64) -> bool {
    &&& c.is_active != Some(false)
    &&& c.status@ != "claimed"@
    &&& c.status@ != "deactivated"@
    &&& due_at_text(
        match c.distribution_method {
            Some(m) => Some(m@),
            None => None,
        },
        c.contract_created_at,
        now,
    )
    &&& !c.has_claim
}

/// Positions of the candidates listed as due at `now`, in order.
pub open spec fn due_positions(cs: Seq<DueCandidate>, now: i64) -> Seq<usize>
    decreases cs.len(),
{
    if cs.len() == 0 {
        Seq::empty()
    } else {
        let rest = due_positions(cs.drop_last(), now);
        if listed_as_due(cs.last(), now) {
            rest.push((cs.len() - 1) as usize)
        } else {
            rest
        }
    }
}

/// Whether a plan status forbids cancellation, and with which message.
pub open spec fn cancel_refusal(status: Seq<char>) -> Option<Seq<char>> {
    if status == "deactivated"@ {
        Some("Plan is already deactivated"@)
    } else if status == "claimed"@ {
        Some("Cannot cancel a plan that has been claimed"@)
    } else {
        None
    }
}

/// Verdict of the service-layer claim checks at `now`: none on success,
/// else whether the refusal is a forbidden one (rather than a bad request)
/// and its message.
pub open spec fn claim_check_verdict(
    currency_preference: Option<&str>,
    beneficiary_name: Option<&str>,
    bank_name: Option<&str>,
    bank_account_number: Option<&str>,
    distribution_method: Option<&str>,
    contract_created_at: Option<i64>,
    now: i64,
) -> Option<(bool, Seq<char>)> {
    match currency_preference {
        None => Some((false, "Plan has no currency preference set"@)),
        Some(c) => match currency_named(c@) {
            None => Some((false, "currency_preference must be USDC or FIAT"@)),
            Some(cur) => if cur == CurrencyPreference::Fiat && !(detail_present(beneficiary_name)
                && detail_present(bank_name) && detail_present(bank_account_number)) {
                Some((false, missing_bank_details_message()))
            } else if !due_at(distribution_method, contract_created_at, now) {
                Some((true, "Plan is not yet due for claim"@))
            } else {
                None
            },
        },
    }
}

impl PlanService {
    /// Whether a plan is due for a claim at `now` (seconds since the epoch).
    pub fn is_due_for_claim_at(distribution_method: Option<&str>, contract_created_at: Option<i64>, now: i64) -> (r: bool)
        ensures
            r == due_at(distribution_method, contract_created_at, now),
    {
        let method = match distribution_method {
            Some(m) => m,
            None => {
                return false;
            },
        };
        let created_at = match contract_created_at {
            Some(c) => c,
            None => {
                return false;
            },
        };
        let elapsed: i128 = now as i128 - created_at as i128;
        if text_equals(method, "LumpSum") {
            true
        } else if text_equals(method, "Monthly") {
            elapsed >= 30 * 86400
        } else if text_equals(method, "Quarterly") {
            elapsed >= 90 * 86400
        } else if text_equals(method, "Yearly") {
            elapsed >= 365 * 86400
        } else {
            false
        }
    }

    /// Whether a plan is due for a claim now.
    pub fn is_due_for_claim(distribution_method: Option<&str>, contract_created_at: Option<i64>) -> (r: bool)
        ensures
            exists|now: i64| r == due_at(distribution_method, contract_created_at, now),
            r ==> distribution_method is Some && contract_created_at is Some,
    {
        let now = unix_now();
        Self::is_due_for_claim_at(distribution_method, contract_created_at, now)
    }

    /// Checks that a plan with the given status may be cancelled.
    pub fn check_cancellable(status: &str) -> (r: Result<(), ApiError>)
        ensures
            r is Ok <==> cancel_refusal(status@) is None,
            r matches Err(e) ==> bad_request_with(e, cancel_refusal(status@)->0),
    {
        if text_equals(status, "deactivated") {
            return Err(ApiError::BadRequest(String::from_str("Plan is already deactivated")));
        }
        if text_equals(status, "claimed") {
            return Err(ApiError::BadRequest(String::from_str("Cannot cancel a plan that has been claimed")));
        }
        Ok(())
    }

    /// The checks made before a claim is recorded at `now`: a known payout
    /// currency, bank details for FIAT, and a plan that is due. Refusals
    /// are bad requests, but for a plan not yet due, which is forbidden.
    pub fn check_claimable_at(
        currency_preference: Option<&str>,
        beneficiary_name: Option<&str>,
        bank_name: Option<&str>,
        bank_account_number: Option<&str>,
        distribution_method: Option<&str>,
        contract_created_at: Option<i64>,
        now: i64,
    ) -> (r: Result<(), ApiError>)
        ensures
            r is Ok <==> claim_check_verdict(
                currency_preference, beneficiary_name, bank_name, bank_account_number,
                distribution_method, contract_created_at, now,
            ) is None,
            r matches Err(e) ==> ({
                let (forbidden, m) = claim_check_verdict(
                    currency_preference, beneficiary_name, bank_name, bank_account_number,
                    distribution_method, contract_created_at, now,
                )->0;
                if forbidden {
                    e matches ApiError::Forbidden(f) && f@ == m
                } else {
                    bad_request_with(e, m)
                }
            }),
    {
        let currency = match currency_preference {
            None => {
                return Err(ApiError::BadRequest(String::from_str("Plan has no currency preference set")));
            },
            Some(c) => match CurrencyPreference::parse(c) {
                Ok(cur) => cur,
                Err(e) => {
                    return Err(e);
                },
            },
        };
        if currency == CurrencyPreference::Fiat {
            if let Err(e) = Self::validate_beneficiary_for_currency(&currency, beneficiary_name, bank_name, bank_account_number) {
                return Err(e);
            }
        }
        if !Self::is_due_for_claim_at(distribution_method, contract_created_at, now) {
            return Err(ApiError::Forbidden(String::from_str("Plan is not yet due for claim")));
        }
        Ok(())
    }

    /// The checks made before a claim is recorded, at the current time.
    pub fn check_claimable(
        currency_preference: Option<&str>,
        beneficiary_name: Option<&str>,
        bank_name: Option<&str>,
        bank_account_number: Option<&str>,
        distribution_method: Option<&str>,
        contract_created_at: Option<i64>,
    ) -> (r: Result<(), ApiError>)
        ensures
            exists|now: i64| (r is Ok <==> claim_check_verdict(
                currency_preference, beneficiary_name, bank_name, bank_account_number,
                distribution_method, contract_created_at, now,
            ) is None),
            currency_preference is None ==> r is Err,
    {
        let now = unix_now();
        Self::check_claimable_at(
            currency_preference,
            beneficiary_name,
            bank_name,
            bank_account_number,
            distribution_method,
            contract_created_at,
            now,
        )
    }
}

impl PlanService {
    /// Whether a stored plan is listed as due for claim at `now`.
    pub fn is_listed_as_due(candidate: &DueCandidate, now: i64) -> (r: bool)
        ensures
            r == listed_as_due(*candidate, now),
    {
        let method = match &candidate.distribution_method {
            Some(m) => Some(m.as_str()),
            None => None,
        };
        candidate.is_active != Some(false) && !text_equals(candidate.status.as_str(), "claimed")
            && !text_equals(candidate.status.as_str(), "deactivated") && Self::is_due_for_claim_at(
            method,
            candidate.contract_created_at,
            now,
        ) && !candidate.has_claim
    }

    /// Positions of the stored plans listed as due for claim at `now`, in
    /// the order given.
    pub fn select_due_for_claim(candidates: &Vec<DueCandidate>, now: i64) -> (r: Vec<usize>)
        ensures
            r@ == due_positions(candidates@, now),
    {
        let mut r: Vec<usize> = Vec::new();
        let mut i: usize = 0;
        while i < candidates.len()
            invariant
                i <= candidates@.len(),
                r@ == due_positions(candidates@.take(i as int), now),
            decreases candidates@.len() - i,
        {
            proof {
                assert(candidates@.take(i + 1).drop_last() =~= candidates@.take(i as int));
                assert(candidates@.take(i + 1).last() == candidates@[i as int]);
            }
            if Self::is_listed_as_due(&candidates[i], now) {
                r.push(i);
            }
            i = i + 1;
        }
        proof {
            assert(candidates@.take(candidates@.len() as int) =~= candidates@);
        }
        r
    }

    /// Positions of the stored plans listed as due for claim now.
    pub fn select_due_for_claim_now(candidates: &Vec<DueCandidate>) -> (r: Vec<usize>)
        ensures
            exists|now: i64| r@ == due_positions(candidates@, now),
    {
        let now = unix_now();
        Self::select_due_for_claim(candidates, now)
    }
}

/// Plan fields as the service layer stores them: the payout currency read
/// from its trimmed name, and the bank details trimmed.
#[derive(Debug)]
pub struct PlanFields {
    pub currency: CurrencyPreference,
    pub beneficiary_name: Option<String>,
    pub bank_name: Option<String>,
    pub bank_account_number: Option<String>,
}

/// A detail trimmed, if given.
pub open spec fn trimmed_detail(s: Option<&str>) -> Option<Seq<char>> {
    match s {
        Some(t) => Some(trimmed(t@)),
        None => None,
    }
}

/// The view of an optional owned text.
pub open spec fn owned_detail(s: Option<String>) -> Option<Seq<char>> {
    match s {
        Some(t) => Some(t@),
        None => None,
    }
}

impl PlanService {
    /// A detail trimmed into an owned text, if given.
    fn trim_detail(s: Option<&str>) -> (r: Option<String>)
        ensures
            owned_detail(r) == trimmed_detail(s),
    {
        match s {
            Some(t) => Some(trim_text(t).to_owned()),
            None => None,
        }
    }

    /// Reads and checks the payout fields of a new plan: the currency name
    /// is trimmed and must name USDC or FIAT, a FIAT payout needs all bank
    /// details, and the details are stored trimmed.
    pub fn prepare_plan_fields(
        currency_preference: &str,
        beneficiary_name: Option<&str>,
        bank_name: Option<&str>,
        bank_account_number: Option<&str>,
    ) -> (r: Result<PlanFields, ApiError>)
        ensures
            r is Ok <==> (currency_named(trimmed(currency_preference@)) matches Some(c) && (c
                == CurrencyPreference::Usdc || (detail_present(beneficiary_name) && detail_present(
                bank_name,
            ) && detail_present(bank_account_number)))),
            r matches Ok(f) ==> Some(f.currency) == currency_named(trimmed(currency_preference@))
                && owned_detail(f.beneficiary_name) == trimmed_detail(beneficiary_name)
                && owned_detail(f.bank_name) == trimmed_detail(bank_name)
                && owned_detail(f.bank_account_number) == trimmed_detail(bank_account_number),
            r matches Err(e) ==> e is BadRequest,
    {
        let currency = match CurrencyPreference::parse(trim_text(currency_preference)) {
            Ok(c) => c,
            Err(e) => {
                return Err(e);
            },
        };
        if let Err(e) = Self::validate_beneficiary_for_currency(&currency, beneficiary_name, bank_name, bank_account_number) {
            return Err(e);
        }
        Ok(PlanFields {
            currency,
            beneficiary_name: Self::trim_detail(beneficiary_name),
            bank_name: Self::trim_detail(bank_name),
            bank_account_number: Self::trim_detail(bank_account_number),
        })
    }
}

/// A claim as submitted by a beneficiary.
#[derive(Debug)]
pub struct ClaimPlanRequest {
    pub beneficiary_email: String,
    pub claim_code: Option<u32>,
}

/// Decision state of a user's identity verification, as the service layer
/// stores it.
#[derive(Debug, Clone, Copy, PartialEq, Eq, Structural)]
pub enum KycStatus {
    Pending,
    Approved,
    Rejected,
}

/// The decision state a stored status text stands for; anything unknown is
/// pending.
pub open spec fn kyc_status_named(s: Seq<char>) -> KycStatus {
    if s == "approved"@ {
        KycStatus::Approved
    } else if s == "rejected"@ {
        KycStatus::Rejected
    } else {
        KycStatus::Pending
    }
}

impl KycStatus {
    /// The stored name of the state.
    pub fn as_str(&self) -> (r: &'static str)
        ensures
            *self == KycStatus::Pending ==> r@ == "pending"@,
            *self == KycStatus::Approved ==> r@ == "approved"@,
            *self == KycStatus::Rejected ==> r@ == "rejected"@,
    {
        match self {
            KycStatus::Pending => "pending",
            KycStatus::Approved => "approved",
            KycStatus::Rejected => "rejected",
        }
    }

    /// Reads a stored status text.
    pub fn parse(s: &str) -> (r: KycStatus)
        ensures
            r == kyc_status_named(s@),
    {
        if text_equals(s, "approved") {
            KycStatus::Approved
        } else if text_equals(s, "rejected") {
            KycStatus::Rejected
        } else {
            KycStatus::Pending
        }
    }
}

/// Identity-verification rules of the service layer.
pub struct KycService;

impl KycService {
    /// The decision state of a user, given the stored status text if a record
    /// exists; a user without a record is pending.
    pub fn status_of(stored: Option<&str>) -> (r: KycStatus)
        ensures
            r == match stored {
                Some(s) => kyc_status_named(s@),
                None => KycStatus::Pending,
            },
    {
        match stored {
            Some(s) => KycStatus::parse(s),
            None => KycStatus::Pending,
        }
    }
}

} // verus!
