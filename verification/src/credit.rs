//! Credit attestation checks and the credit-score record.
//!
//! Attestations are checked structurally: freshness, threshold match and
//! non-triviality of the supplied material. No cryptographic proof
//! verification happens here; a real verifier can replace these checks
//! without touching the state machine.

use vstd::prelude::*;

use crate::commitment::{any_nonzero, spec_any_nonzero, spec_sha256};
use crate::constants::MAX_CREDIT_PROOF_AGE;
use crate::errors::{CreditScorerError, LoanManagerError};

verus! {

/// A client-side credit attestation: opaque proof material, public
/// inputs carrying the threshold, a hidden score commitment, and the
/// issuance time.
#[derive(Clone, Debug)]
pub struct NoirCreditProof {
    /// Opaque proof bytes.
    pub proof: Vec<u8>,
    /// Public inputs; the first two bytes carry the threshold.
    pub public_inputs: Vec<u8>,
    /// Commitment hiding the actual score.
    pub score_commitment: [u8; 32],
    /// Issuance time of the attestation.
    pub timestamp: i64,
}

/// Threshold carried little-endian in the first two public-input bytes.
pub open spec fn spec_public_threshold_le(inputs: Seq<u8>) -> u16
    recommends
        inputs.len() >= 2,
{
    (inputs[0] + inputs[1] * 0x100) as u16
}

/// Threshold carried big-endian in the first two public-input bytes.
pub open spec fn spec_public_threshold_be(inputs: Seq<u8>) -> u16
    recommends
        inputs.len() >= 2,
{
    (inputs[0] * 0x100 + inputs[1]) as u16
}

/// The first refusal, if any, that checking a credit attestation against
/// `threshold` at time `now` runs into.
pub open spec fn spec_credit_proof_error(
    p: NoirCreditProof,
    threshold: u16,
    now: i64,
) -> Option<LoanManagerError> {
    if now - p.timestamp > i64::MAX || now - p.timestamp < i64::MIN {
        Some(LoanManagerError::ArithmeticOverflow)
    } else if now - p.timestamp > MAX_CREDIT_PROOF_AGE {
        Some(LoanManagerError::CreditProofExpired)
    } else if p.public_inputs@.len() < 2 {
        Some(LoanManagerError::InvalidCreditProofSignature)
    } else if spec_public_threshold_le(p.public_inputs@) != threshold {
        Some(LoanManagerError::InvalidCreditProofSignature)
    } else if p.proof@.len() < 64 {
        Some(LoanManagerError::InvalidCreditProofSignature)
    } else if !spec_any_nonzero(p.score_commitment@) {
        Some(LoanManagerError::InvalidCreditProofSignature)
    } else {
        None
    }
}

/// Check a credit attestation: fresh (age at most 12 hours), threshold in
/// the public inputs equal to the demanded one, proof material at least
/// 64 bytes, and a non-zero score commitment.
pub fn verify_noir_credit_proof(proof: &NoirCreditProof, threshold: u16, current_time: i64) -> (r:
    Result<bool, LoanManagerError>)
    ensures
        r is Ok <==> spec_credit_proof_error(*proof, threshold, current_time) is None,
        r matches Ok(v) ==> v == true,
        r matches Err(e) ==> Some(e) == spec_credit_proof_error(*proof, threshold, current_time),
{
    let age: i64 = match current_time.checked_sub(proof.timestamp) {
        Some(a) => a,
        None => {
            return Err(LoanManagerError::ArithmeticOverflow);
        },
    };
    if age > MAX_CREDIT_PROOF_AGE {
        return Err(LoanManagerError::CreditProofExpired);
    }
    if proof.public_inputs.len() < 2 {
        return Err(LoanManagerError::InvalidCreditProofSignature);
    }
    let lo: u16 = proof.public_inputs[0] as u16;
    let hi: u16 = proof.public_inputs[1] as u16;
    let public_threshold: u16 = lo + hi * 0x100;
    if public_threshold != threshold {
        return Err(LoanManagerError::InvalidCreditProofSignature);
    }
    if proof.proof.len() < 64 {
        return Err(LoanManagerError::InvalidCreditProofSignature);
    }
    if !any_nonzero(proof.score_commitment.as_slice()) {
        return Err(LoanManagerError::InvalidCreditProofSignature);
    }
    Ok(true)
}

/// The first refusal, if any, that the structural check of raw proof
/// material against `threshold` runs into.
pub open spec fn spec_proof_structure_error(
    proof_data: Seq<u8>,
    public_inputs: Seq<u8>,
    threshold: u16,
) -> Option<CreditScorerError> {
    if proof_data.len() < 64 {
        Some(CreditScorerError::ProofDataTooShort)
    } else if public_inputs.len() < 2 {
        Some(CreditScorerError::InvalidPublicInputs)
    } else if spec_public_threshold_be(public_inputs) != threshold {
        Some(CreditScorerError::InvalidProof)
    } else if !spec_any_nonzero(proof_data) {
        Some(CreditScorerError::InvalidProof)
    } else {
        None
    }
}

/// Structural check of raw proof material: at least 64 proof bytes, at
/// least two public-input bytes whose big-endian threshold matches, and
/// some non-zero proof byte.
pub fn verify_noir_proof_structure(proof_data: &[u8], public_inputs: &[u8], threshold: u16) -> (r:
    Result<bool, CreditScorerError>)
    ensures
        r is Ok <==> spec_proof_structure_error(proof_data@, public_inputs@, threshold) is None,
        r matches Ok(v) ==> v == true,
        r matches Err(e) ==> Some(e) == spec_proof_structure_error(
            proof_data@,
            public_inputs@,
            threshold,
        ),
{
    if proof_data.len() < 64 {
        return Err(CreditScorerError::ProofDataTooShort);
    }
    if public_inputs.len() < 2 {
        return Err(CreditScorerError::InvalidPublicInputs);
    }
    let hi: u16 = public_inputs[0] as u16;
    let lo: u16 = public_inputs[1] as u16;
    let public_threshold: u16 = hi * 0x100 + lo;
    if public_threshold != threshold {
        return Err(CreditScorerError::InvalidProof);
    }
    if !any_nonzero(proof_data) {
        return Err(CreditScorerError::InvalidProof);
    }
    Ok(true)
}

/// The big-endian byte pair of a 16-bit value.
pub open spec fn spec_u16_be_bytes(x: u16) -> Seq<u8> {
    seq![(x / 0x100) as u8, (x % 0x100) as u8]
}

/// The commitment hiding a credit score under a secret:
/// `Hash(score_be_bytes ‖ secret)`.
pub open spec fn spec_score_commitment(score: u16, secret: Seq<u8>) -> Seq<u8> {
    spec_sha256(spec_u16_be_bytes(score) + secret)
}

/// Build the commitment that hides `score` under `secret`.
pub fn calculate_score_commitment(score: u16, secret: &[u8; 32]) -> (r: [u8; 32])
    ensures
        r@ == spec_score_commitment(score, secret@),
{
    let mut data: Vec<u8> = Vec::new();
    data.push((score / 0x100) as u8);
    data.push((score % 0x100) as u8);
    let mut tail: Vec<u8> = vstd::slice::slice_to_vec(secret.as_slice());
    data.append(&mut tail);
    proof {
        assert(data@ =~= spec_u16_be_bytes(score) + secret@);
    }
    crate::commitment::sha256_digest(data.as_slice())
}

/// Whether a score that expires at `expires_at` is still usable at
/// `current_time`.
pub fn is_score_valid(expires_at: i64, current_time: i64) -> (r: bool)
    ensures
        r == (current_time < expires_at),
{
    current_time < expires_at
}

/// Progress of a score request.
#[derive(Clone, Copy, Debug, PartialEq, Eq, Structural)]
pub enum ScoreStatus {
    /// Requested, not yet scored.
    Pending,
    /// Scored by the oracle.
    Completed,
    /// No longer usable.
    Expired,
}

/// An issued credit score and its validity window.
#[derive(Clone, Debug)]
pub struct CreditScore {
    /// Wallet the score belongs to.
    pub wallet: [u8; 32],
    /// The score itself.
    pub score: u16,
    /// Commitment hiding the score.
    pub score_commitment: [u8; 32],
    /// Progress of the request.
    pub status: ScoreStatus,
    /// Opaque scoring material.
    pub score_data: Vec<u8>,
    /// When the score was requested.
    pub requested_at: i64,
    /// When the score was issued.
    pub scored_at: i64,
    /// When the score stops being usable.
    pub expires_at: i64,
    /// Oracle signature over the score.
    pub oracle_signature: [u8; 64],
    /// How many times the score was used.
    pub usage_count: u32,
}

impl CreditScore {
    /// Whether the score is issued and not expired at `current_time`.
    pub fn is_valid(&self, current_time: i64) -> (r: bool)
        ensures
            r == (self.status == ScoreStatus::Completed && current_time < self.expires_at),
    {
        self.status == ScoreStatus::Completed && current_time < self.expires_at
    }

    /// Whether the score meets a demanded threshold.
    pub fn meets_threshold(&self, threshold: u16) -> (r: bool)
        ensures
            r == (self.score >= threshold),
    {
        self.score >= threshold
    }

    /// Count one more use of the score, saturating at the maximum.
    pub fn use_score(&mut self)
        ensures
            final(self).usage_count == (if old(self).usage_count == u32::MAX {
                u32::MAX as int
            } else {
                old(self).usage_count + 1
            }),
            *final(self) == (CreditScore { usage_count: final(self).usage_count, ..*old(self) }),
    {
        self.usage_count = self.usage_count.saturating_add(1);
    }
}

} // verus!
