//! Commitment and nullifier verification.
//!
//! An amount is hidden behind `Hash(secret ‖ amount)`. Revealing the
//! secret and the amount lets anyone recompute the digest and compare.
//! A nullifier accompanies each commitment; once recorded in a loan's
//! used-nullifier list it can never be presented again on that loan.

use vstd::prelude::*;

use sha2::Digest;

use crate::errors::LoanManagerError;

verus! {

/// The SHA-256 digest of a byte sequence. The digest is a pure function
/// of the input; its value is not axiomatized here.
pub uninterp spec fn spec_sha256(data: Seq<u8>) -> Seq<u8>;

/// Relies on `sha2::Sha256` through `Digest::digest`: the 32-byte digest
/// depends on the input bytes alone.
#[verifier::external_body]
pub(crate) fn sha256_digest(data: &[u8]) -> (r: [u8; 32])
    ensures
        r@ == spec_sha256(data@),
{
    sha2::Sha256::digest(data).into()
}

/// The commitment hiding `amount` under `secret`:
/// `Hash(secret ‖ amount_le_bytes)`.
pub open spec fn spec_commitment(secret: Seq<u8>, amount: u64) -> Seq<u8> {
    spec_sha256(secret + vstd::bytes::spec_u64_to_le_bytes(amount))
}

/// Whether `commitment` opens to `amount` under `secret`.
pub open spec fn spec_commitment_matches(commitment: Seq<u8>, secret: Seq<u8>, amount: u64) -> bool {
    commitment == spec_commitment(secret, amount)
}

/// Whether `nullifier` already appears in a used-nullifier list.
pub open spec fn spec_nullifier_used(used: Seq<[u8; 32]>, nullifier: Seq<u8>) -> bool {
    exists|i: int| 0 <= i < used.len() && used[i]@ == nullifier
}

/// Whether any byte of a sequence is non-zero.
pub open spec fn spec_any_nonzero(s: Seq<u8>) -> bool {
    exists|i: int| 0 <= i < s.len() && s[i] != 0
}

/// Compare two 32-byte words.
pub fn bytes32_eq(a: &[u8; 32], b: &[u8; 32]) -> (r: bool)
    ensures
        r == (a@ == b@),
{
    let mut i: usize = 0;
    while i < 32
        invariant
            0 <= i <= 32,
            forall|j: int| 0 <= j < i ==> a@[j] == b@[j],
        decreases 32 - i,
    {
        if a[i] != b[i] {
            return false;
        }
        i += 1;
    }
    proof {
        assert(a@ =~= b@);
    }
    true
}

/// Whether any byte of a slice is non-zero.
pub fn any_nonzero(s: &[u8]) -> (r: bool)
    ensures
        r == spec_any_nonzero(s@),
{
    let mut i: usize = 0;
    while i < s.len()
        invariant
            0 <= i <= s@.len(),
            forall|j: int| 0 <= j < i ==> s@[j] == 0,
        decreases s@.len() - i,
    {
        if s[i] != 0 {
            return true;
        }
        i += 1;
    }
    false
}

/// Build the commitment that hides `amount` under `secret`.
pub fn compute_commitment(amount: u64, secret: &[u8; 32]) -> (r: [u8; 32])
    ensures
        r@ == spec_commitment(secret@, amount),
{
    let mut data: Vec<u8> = vstd::slice::slice_to_vec(secret.as_slice());
    let mut le: Vec<u8> = vstd::bytes::u64_to_le_bytes(amount);
    data.append(&mut le);
    sha256_digest(data.as_slice())
}

/// Recompute the commitment from the revealed secret and amount and
/// compare it with the published one.
pub fn verify_privacy_commitment(commitment: [u8; 32], secret: [u8; 32], amount: u64) -> (r:
    Result<bool, LoanManagerError>)
    ensures
        r matches Ok(v) && v == spec_commitment_matches(commitment@, secret@, amount),
{
    let computed = compute_commitment(amount, &secret);
    Ok(bytes32_eq(&computed, &commitment))
}

/// Reject a nullifier that already appears in the used list.
pub fn verify_nullifier_unused(nullifier: &[u8; 32], used_nullifier: &Vec<[u8; 32]>) -> (r: Result<
    bool,
    LoanManagerError,
>)
    ensures
        r is Ok <==> !spec_nullifier_used(used_nullifier@, nullifier@),
        r matches Ok(v) ==> v == true,
        r matches Err(e) ==> e == LoanManagerError::NullifierAlreadyUsed,
{
    let mut i: usize = 0;
    while i < used_nullifier.len()
        invariant
            0 <= i <= used_nullifier@.len(),
            forall|j: int| 0 <= j < i ==> used_nullifier@[j]@ != nullifier@,
        decreases used_nullifier@.len() - i,
    {
        if bytes32_eq(&used_nullifier[i], nullifier) {
            return Err(LoanManagerError::NullifierAlreadyUsed);
        }
        i += 1;
    }
    Ok(true)
}

/// Structural sanity check on a range proof: when one is supplied it
/// must not be all zeroes. No cryptographic verification is performed.
pub fn verify_amount_inrange(
    commitment: [u8; 32],
    expected_range: (u64, u64),
    range_proof: Option<&[u8; 64]>,
) -> (r: Result<bool, LoanManagerError>)
    ensures
        r is Ok <==> (range_proof matches Some(p) ==> spec_any_nonzero(p@)),
        r matches Ok(v) ==> v == true,
        r matches Err(e) ==> e == LoanManagerError::InvalidRangeProof,
{
    match range_proof {
        Some(proof) => {
            if any_nonzero(proof.as_slice()) {
                Ok(true)
            } else {
                Err(LoanManagerError::InvalidRangeProof)
            }
        },
        None => Ok(true),
    }
}

/// A commitment built from a secret and an amount verifies against that
/// same secret and amount. (The converse — that no other amount opens
/// it — rests on collision resistance of the hash and is not stated.)
pub proof fn lemma_commit_then_verify(secret: Seq<u8>, amount: u64)
    ensures
        spec_commitment_matches(spec_commitment(secret, amount), secret, amount),
{
}

} // verus!
