use private_lending::commitment::{
    any_nonzero, bytes32_eq, compute_commitment, verify_amount_inrange, verify_nullifier_unused,
    verify_privacy_commitment,
};
use private_lending::errors::LoanManagerError;

#[test]
fn commitment_roundtrip_verifies() {
    let secret = [9u8; 32];
    let commitment = compute_commitment(12_345, &secret);
    assert_eq!(verify_privacy_commitment(commitment, secret, 12_345), Ok(true));
}

#[test]
fn commitment_rejects_other_amount() {
    let secret = [9u8; 32];
    let commitment = compute_commitment(12_345, &secret);
    assert_eq!(verify_privacy_commitment(commitment, secret, 12_346), Ok(false));
    assert_eq!(verify_privacy_commitment(commitment, secret, 0), Ok(false));
}

#[test]
fn commitment_rejects_other_secret() {
    let secret = [9u8; 32];
    let other = [10u8; 32];
    let commitment = compute_commitment(12_345, &secret);
    assert_eq!(verify_privacy_commitment(commitment, other, 12_345), Ok(false));
}

#[test]
fn commitment_matches_known_digest_of_zero_input() {
    // SHA-256 of 40 zero bytes: 32 secret bytes followed by the
    // little-endian encoding of amount 0.
    let expected: [u8; 32] = [
        44, 52, 206, 29, 242, 59, 131, 140, 90, 191, 42, 127, 100, 55, 204, 163, 211, 6, 126,
        213, 9, 255, 37, 241, 29, 246, 177, 27, 88, 43, 81, 235,
    ];
    assert_eq!(compute_commitment(0, &[0u8; 32]), expected);
}

#[test]
fn commitment_matches_known_digest_of_nonzero_input() {
    let expected: [u8; 32] = [
        81, 29, 158, 194, 138, 48, 34, 14, 208, 159, 242, 157, 178, 225, 162, 202, 160, 225, 95,
        237, 65, 206, 118, 175, 230, 28, 231, 47, 139, 84, 124, 172,
    ];
    assert_eq!(compute_commitment(150, &[7u8; 32]), expected);
}

#[test]
fn nullifier_fresh_when_list_empty() {
    assert_eq!(verify_nullifier_unused(&[1u8; 32], &vec![]), Ok(true));
}

#[test]
fn nullifier_rejected_when_recorded() {
    let n = [3u8; 32];
    let used = vec![[1u8; 32], n, [2u8; 32]];
    assert_eq!(
        verify_nullifier_unused(&n, &used),
        Err(LoanManagerError::NullifierAlreadyUsed)
    );
}

#[test]
fn nullifier_fresh_when_not_recorded() {
    let used = vec![[1u8; 32], [2u8; 32]];
    assert_eq!(verify_nullifier_unused(&[3u8; 32], &used), Ok(true));
}

#[test]
fn range_proof_absent_is_accepted() {
    assert_eq!(verify_amount_inrange([5u8; 32], (1, 10), None), Ok(true));
}

#[test]
fn range_proof_with_content_is_accepted() {
    let proof = [1u8; 64];
    assert_eq!(verify_amount_inrange([5u8; 32], (1, 10), Some(&proof)), Ok(true));
}

#[test]
fn range_proof_of_zeroes_is_rejected() {
    let proof = [0u8; 64];
    assert_eq!(
        verify_amount_inrange([5u8; 32], (1, 10), Some(&proof)),
        Err(LoanManagerError::InvalidRangeProof)
    );
}

#[test]
fn byte_words_compare_by_content() {
    assert!(bytes32_eq(&[4u8; 32], &[4u8; 32]));
    let mut other = [4u8; 32];
    other[31] = 5;
    assert!(!bytes32_eq(&[4u8; 32], &other));
}

#[test]
fn nonzero_scan_finds_single_byte() {
    assert!(!any_nonzero(&[0u8; 16]));
    let mut bytes = [0u8; 16];
    bytes[15] = 1;
    assert!(any_nonzero(&bytes));
}
