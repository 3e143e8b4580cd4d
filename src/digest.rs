//! Fixed-width fingerprints of names, e-mail addresses and claim codes.

use vstd::prelude::*;

verus! {

/// Length in bytes of every digest.
pub const DIGEST_LEN: usize = 32;

/// Largest input, in bytes, that is ever hashed.
pub const MAX_HASH_INPUT: usize = 65536;

/// Largest claim code; codes are six decimal digits.
pub const MAX_CLAIM_CODE: u32 = 999999;

/// The SHA-256 digest of a byte string.
pub uninterp spec fn sha256_of(data: Seq<u8>) -> Seq<u8>;

/// Relies on soroban_sdk's `Crypto::sha256`: the SHA-256 digest of the
/// bytes, 32 bytes long (`Hash<32>`), computed in a fresh host. The input
/// stays far below the host's default cpu and memory budget, whose
/// exhaustion would panic.
#[verifier::external_body]
pub(crate) fn sha256(data: &[u8]) -> (r: Vec<u8>)
    requires
        data@.len() <= MAX_HASH_INPUT,
    ensures
        r@ == sha256_of(data@),
        r@.len() == DIGEST_LEN,
{
    let env = soroban_sdk::Env::default();
    let bytes = soroban_sdk::Bytes::from_slice(&env, data);
    env.crypto().sha256(&bytes).to_array().to_vec()
}

/// The six ASCII digits of a claim code, most significant first, padded
/// with zeros.
pub open spec fn claim_code_digits(code: u32) -> Seq<u8> {
    seq![
        (48 + (code / 100000) % 10) as u8,
        (48 + (code / 10000) % 10) as u8,
        (48 + (code / 1000) % 10) as u8,
        (48 + (code / 100) % 10) as u8,
        (48 + (code / 10) % 10) as u8,
        (48 + code % 10) as u8,
    ]
}

/// The eight bytes of an identifier, most significant first.
pub open spec fn be_bytes(n: u64) -> Seq<u8> {
    seq![
        (n >> 56u64) as u8,
        (n >> 48u64) as u8,
        (n >> 40u64) as u8,
        (n >> 32u64) as u8,
        (n >> 24u64) as u8,
        (n >> 16u64) as u8,
        (n >> 8u64) as u8,
        n as u8,
    ]
}

/// The ledger key of a claim on plan `plan_id` by the beneficiary whose
/// e-mail digest is `hashed_email`.
pub open spec fn claim_key_of(plan_id: u64, hashed_email: Seq<u8>) -> Seq<u8> {
    sha256_of(be_bytes(plan_id) + hashed_email)
}

/// Computes the ledger key of a claim.
pub fn claim_key(plan_id: u64, hashed_email: &[u8]) -> (r: Vec<u8>)
    requires
        hashed_email@.len() <= DIGEST_LEN,
    ensures
        r@ == claim_key_of(plan_id, hashed_email@),
        r@.len() == DIGEST_LEN,
{
    let mut data: Vec<u8> = vec![
        (plan_id >> 56u64) as u8,
        (plan_id >> 48u64) as u8,
        (plan_id >> 40u64) as u8,
        (plan_id >> 32u64) as u8,
        (plan_id >> 24u64) as u8,
        (plan_id >> 16u64) as u8,
        (plan_id >> 8u64) as u8,
        plan_id as u8,
    ];
    assert(data@ =~= be_bytes(plan_id));
    let mut i: usize = 0;
    while i < hashed_email.len()
        invariant
            i <= hashed_email@.len(),
            hashed_email@.len() <= DIGEST_LEN,
            data@ == be_bytes(plan_id) + hashed_email@.take(i as int),
        decreases hashed_email@.len() - i,
    {
        data.push(hashed_email[i]);
        i = i + 1;
        assert(data@ =~= be_bytes(plan_id) + hashed_email@.take(i as int));
    }
    assert(hashed_email@.take(hashed_email@.len() as int) =~= hashed_email@);
    sha256(data.as_slice())
}

} // verus!
