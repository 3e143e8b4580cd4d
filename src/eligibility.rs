//! When a plan becomes claimable.

use vstd::prelude::*;

verus! {

/// The schedule that gates claims on a plan.
#[derive(Clone, Copy, Debug, PartialEq, Eq, Structural)]
pub enum DistributionMethod {
    LumpSum,
    Monthly,
    Quarterly,
    Yearly,
}

/// Seconds in a day.
pub const SECONDS_PER_DAY: u64 = 86400;

/// Seconds that must pass after a plan's reference time before a claim.
pub open spec fn waiting_period(method: DistributionMethod) -> int {
    match method {
        DistributionMethod::LumpSum => 0,
        DistributionMethod::Monthly => 30 * 86400int,
        DistributionMethod::Quarterly => 90 * 86400int,
        DistributionMethod::Yearly => 365 * 86400int,
    }
}

/// A claim at `now` on a plan whose reference time is `reference` is
/// allowed; a lump sum always is, and no other method before its reference
/// time.
pub open spec fn claimable(method: DistributionMethod, reference: u64, now: u64) -> bool {
    method == DistributionMethod::LumpSum || (reference <= now && now - reference
        >= waiting_period(method))
}

/// The waiting period of a method, in seconds.
pub fn waiting_period_secs(method: DistributionMethod) -> (r: u64)
    ensures
        r == waiting_period(method),
{
    match method {
        DistributionMethod::LumpSum => 0,
        DistributionMethod::Monthly => 30 * SECONDS_PER_DAY,
        DistributionMethod::Quarterly => 90 * SECONDS_PER_DAY,
        DistributionMethod::Yearly => 365 * SECONDS_PER_DAY,
    }
}

/// Whether a claim at `now` is allowed on a plan created at `created_at`.
pub fn is_claim_time_valid(method: DistributionMethod, created_at: u64, now: u64) -> (r: bool)
    ensures
        r == claimable(method, created_at, now),
{
    match method {
        DistributionMethod::LumpSum => true,
        _ => created_at <= now && now - created_at >= waiting_period_secs(method),
    }
}

} // verus!
