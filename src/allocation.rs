//! Basis-point accounting over beneficiary sets.

use vstd::prelude::*;
use crate::error::InheritanceError;

verus! {

/// The whole of a plan, in basis points.
pub const FULL_ALLOCATION_BP: u32 = 10000;

/// Most beneficiaries a plan may name.
pub const MAX_BENEFICIARIES: usize = 10;

/// One beneficiary as submitted at plan creation: full name, e-mail, claim
/// code, bank account and allocation in basis points.
pub type BeneficiaryData = (String, String, u32, Vec<u8>, u32);

/// Sum of a sequence of allocations.
pub open spec fn sum_bp(s: Seq<u32>) -> int
    decreases s.len(),
{
    if s.len() == 0 {
        0
    } else {
        sum_bp(s.drop_last()) + s.last()
    }
}

/// Every allocation is positive.
pub open spec fn all_positive(s: Seq<u32>) -> bool {
    forall|i: int| 0 <= i < s.len() ==> s[i] > 0
}

/// The allocations of a set of beneficiaries, in order.
pub open spec fn allocations_of(data: Seq<BeneficiaryData>) -> Seq<u32> {
    data.map_values(|b: BeneficiaryData| b.4)
}

/// Verdict on the allocations of a beneficiary set submitted at creation:
/// one to ten entries, each positive, summing to exactly the whole.
pub open spec fn creation_set_verdict(bps: Seq<u32>) -> Result<(), InheritanceError> {
    if bps.len() > MAX_BENEFICIARIES {
        Err(InheritanceError::TooManyBeneficiaries)
    } else if bps.len() == 0 {
        Err(InheritanceError::MissingRequiredField)
    } else if !all_positive(bps) {
        Err(InheritanceError::InvalidAllocation)
    } else if sum_bp(bps) != FULL_ALLOCATION_BP {
        Err(InheritanceError::AllocationPercentageMismatch)
    } else {
        Ok(())
    }
}

/// Verdict on adding an allocation to a plan that holds `current`.
pub open spec fn add_verdict(current: u32, new_bp: u32) -> Result<u32, InheritanceError> {
    if new_bp == 0 {
        Err(InheritanceError::InvalidAllocation)
    } else if current + new_bp > FULL_ALLOCATION_BP {
        Err(InheritanceError::AllocationExceedsLimit)
    } else {
        Ok((current + new_bp) as u32)
    }
}

/// Sum of a prefix grows by the next element.
pub proof fn lemma_sum_bp_take(s: Seq<u32>, i: int)
    requires
        0 <= i < s.len(),
    ensures
        sum_bp(s.take(i + 1)) == sum_bp(s.take(i)) + s[i],
{
    assert(s.take(i + 1).drop_last() =~= s.take(i));
}

/// Sum is at most the count times the largest allowed element.
pub proof fn lemma_sum_bp_bound(s: Seq<u32>, bound: u32)
    requires
        forall|i: int| 0 <= i < s.len() ==> s[i] <= bound,
    ensures
        0 <= sum_bp(s) <= s.len() * bound,
    decreases s.len(),
{
    if s.len() > 0 {
        lemma_sum_bp_bound(s.drop_last(), bound);
        assert(s.len() * bound == (s.len() - 1) * bound + bound) by (nonlinear_arith);
    }
}

/// Replacing one element changes the sum by the difference.
pub proof fn lemma_sum_bp_update(s: Seq<u32>, i: int, v: u32)
    requires
        0 <= i < s.len(),
    ensures
        sum_bp(s.update(i, v)) == sum_bp(s) - s[i] + v,
    decreases s.len(),
{
    if i == s.len() - 1 {
        assert(s.update(i, v).drop_last() =~= s.drop_last());
    } else {
        lemma_sum_bp_update(s.drop_last(), i, v);
        assert(s.update(i, v).drop_last() =~= s.drop_last().update(i, v));
    }
}

/// Appending an element adds it to the sum.
pub proof fn lemma_sum_bp_push(s: Seq<u32>, v: u32)
    ensures
        sum_bp(s.push(v)) == sum_bp(s) + v,
{
    assert(s.push(v).drop_last() =~= s);
}

/// Removing position `i` by moving the last element there takes that
/// element's share out of the sum.
pub proof fn lemma_sum_bp_swap_remove(s: Seq<u32>, i: int)
    requires
        0 <= i < s.len(),
    ensures
        sum_bp(s.update(i, s.last()).drop_last()) == sum_bp(s) - s[i],
{
    lemma_sum_bp_update(s, i, s.last());
}

/// Checks that an allocation may join a plan holding `current` basis
/// points, and returns the new total.
pub fn validate_add(current: u32, new_bp: u32) -> (r: Result<u32, InheritanceError>)
    ensures
        r == add_verdict(current, new_bp),
{
    if new_bp == 0 {
        return Err(InheritanceError::InvalidAllocation);
    }
    let total = current as u64 + new_bp as u64;
    if total > FULL_ALLOCATION_BP as u64 {
        return Err(InheritanceError::AllocationExceedsLimit);
    }
    Ok(total as u32)
}

} // verus!
