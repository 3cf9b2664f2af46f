//! Error taxonomy of the protocol.

use vstd::prelude::*;

verus! {

/// Reasons a loan-manager operation is refused.
///
/// Validation, authorization and state-precondition failures are surfaced
/// to the caller; arithmetic failures indicate an upstream invariant
/// violation and are never silently saturated.
#[derive(Clone, Copy, Debug, PartialEq, Eq, Structural)]
pub enum LoanManagerError {
    /// Loan amount is below the minimum required.
    LoanAmountTooLow,
    /// Loan amount exceeds the maximum allowed.
    LoanAmountTooHigh,
    /// Loan duration is below the minimum of one day.
    DurationTooShort,
    /// Loan duration exceeds the maximum of one year.
    DurationTooLong,
    /// Credit score is below the minimum required.
    CreditScoreTooLow,
    /// Credit proof is older than the freshness window.
    CreditProofExpired,
    /// Credit proof signature or structure is invalid.
    InvalidCreditProofSignature,
    /// Declared collateral does not cover the required ratio.
    InsufficientCollateral,
    /// Pool or lender lacks the liquidity for this loan.
    InsufficientPoolLiquidity,
    /// The loan is not in a status that allows this operation.
    InvalidLoanStatus,
    /// Repayment amount exceeds the remaining balance.
    RepaymentExceedsBalance,
    /// Arithmetic overflow occurred.
    ArithmeticOverflow,
    /// Arithmetic underflow occurred.
    ArithmeticUnderflow,
    /// Only the borrower can perform this action.
    UnauthorizedBorrower,
    /// Only the lender can perform this action.
    UnauthorizedLender,
    /// The loan has not been approved yet.
    LoanNotApproved,
    /// The loan is already approved.
    LoanAlreadyApproved,
    /// The loan repayment is overdue.
    LoanOverdue,
    /// A commitment hash did not verify.
    InvalidCommitment,
    /// The nullifier was already used on this loan.
    NullifierAlreadyUsed,
    /// A range proof is malformed.
    InvalidRangeProof,
    /// A merkle proof did not verify.
    InvalidMerkleProof,
    /// The loan's used-nullifier list is at capacity.
    NullifierListFull,
}

/// Reasons a credit-scoring operation is refused.
#[derive(Clone, Copy, Debug, PartialEq, Eq, Structural)]
pub enum CreditScorerError {
    /// Credit score below the minimum threshold.
    ScoreTooLow,
    /// Credit score above the maximum.
    ScoreTooHigh,
    /// Credit score has expired.
    ScoreExpired,
    /// Credit score not found.
    ScoreNotFound,
    /// Invalid oracle signature.
    InvalidOracleSignature,
    /// Only the oracle can submit scores.
    UnauthorizedOracle,
    /// Only the admin can perform this action.
    UnauthorizedAdmin,
    /// Proof verification failed.
    InvalidProof,
    /// Public inputs are malformed.
    InvalidPublicInputs,
    /// Proof data is too short.
    ProofDataTooShort,
    /// A score request already exists.
    RequestAlreadyExists,
    /// Arithmetic overflow occurred.
    ArithmeticOverflow,
}

} // verus!
