//! The data model: loans, the loan counter, the lending pool and the
//! per-lender position, with their well-formedness conditions.

use vstd::prelude::*;

use crate::constants::MAX_USED_NULLIFIERS;

verus! {

/// A hidden amount: its commitment, the nullifier that spends it, and an
/// optional structural range proof.
#[derive(Clone, Copy, Debug)]
pub struct PrivateAmount {
    /// Commitment hiding the amount.
    pub commitment: [u8; 32],
    /// Single-use token accompanying the commitment.
    pub nullifier: [u8; 32],
    /// Structural range proof, if one was supplied.
    pub amount_range_proof: Option<[u8; 64]>,
}

impl PrivateAmount {
    /// A hidden amount from its commitment and nullifier, with no range
    /// proof attached.
    pub fn new(commitment: [u8; 32], nullifier: [u8; 32]) -> (r: PrivateAmount)
        ensures
            r.commitment == commitment,
            r.nullifier == nullifier,
            r.amount_range_proof is None,
    {
        PrivateAmount { commitment, nullifier, amount_range_proof: None }
    }

    /// The all-zero placeholder.
    pub fn default() -> (r: PrivateAmount)
        ensures
            r.commitment@ == Seq::new(32, |i: int| 0u8),
            r.nullifier@ == Seq::new(32, |i: int| 0u8),
            r.amount_range_proof is None,
    {
        let r = PrivateAmount { commitment: [0u8; 32], nullifier: [0u8; 32], amount_range_proof: None };
        proof {
            assert(r.commitment@ =~= Seq::new(32, |i: int| 0u8));
            assert(r.nullifier@ =~= Seq::new(32, |i: int| 0u8));
        }
        r
    }
}

/// Status dimension of a loan's lifecycle.
///
/// `Pending → Approved → Active ⇄ PartiallyRepaid → {Repaid | Defaulted |
/// Liquidated | Disputed}`; `Repaid`, `Defaulted` and `Liquidated` are
/// terminal.
#[derive(Clone, Copy, Debug, PartialEq, Eq, Structural)]
pub enum LoanStatus {
    /// Requested, waiting for a lender.
    Pending,
    /// Matched with a lender, not yet disbursed.
    Approved,
    /// Disbursed and accruing interest.
    Active,
    /// Some principal repaid, still accruing.
    PartiallyRepaid,
    /// Fully repaid; terminal.
    Repaid,
    /// Forced closed by the health monitor; terminal.
    Defaulted,
    /// Under dispute.
    Disputed,
    /// Collateral was liquidated; terminal.
    Liquidated,
}

/// One loan record.
#[derive(Debug)]
pub struct Loan {
    /// Unique, monotonically assigned identifier.
    pub loan_id: u64,
    /// Borrower identity.
    pub borrower: [u8; 32],
    /// Lender identity; all zero until approval.
    pub lender: [u8; 32],
    /// Pool the loan draws from.
    pub pool: [u8; 32],
    /// Hidden actual principal.
    pub principal_commitment: PrivateAmount,
    /// Hidden actual collateral.
    pub collateral_commitment: PrivateAmount,
    /// Hidden repayment, set on the latest repayment.
    pub repaid_commitment: PrivateAmount,
    /// Declared principal range `[min, max]`.
    pub principal_range: (u64, u64),
    /// Asset the collateral is denominated in.
    pub collateral_mint: [u8; 32],
    /// Interest rate in basis points per year.
    pub interest_rate: u16,
    /// Agreed duration in seconds.
    pub duration: i64,
    /// Lifecycle status.
    pub status: LoanStatus,
    /// When funds were disbursed; zero before.
    pub start_time: i64,
    /// When the loan falls due; zero before disbursal.
    pub end_time: i64,
    /// Merkle root of auxiliary material.
    pub merkel_root: [u8; 32],
    /// Nullifiers already spent on this loan, capacity 10.
    pub used_nullifier: Vec<[u8; 32]>,
    /// Auxiliary digest of the principal.
    pub amount_hash: [u8; 32],
    /// Auxiliary digest of the collateral.
    pub collateral_hash: [u8; 32],
    /// Health factor, scaled by 100 (100 = 1.0x).
    pub health_factor: u16,
    /// When the health factor was last overwritten.
    pub last_health_check: i64,
    /// Externally supplied collateral valuation.
    pub collateral_value_usd: u64,
    /// Whether an under-collateralization warning stands.
    pub warning_sent: bool,
    /// Credit threshold the borrower attested to.
    pub credit_score: u16,
    /// Required collateral ratio in basis points.
    pub required_collateral_ratio: u16,
    /// Total repaid across partial repayments.
    pub total_repaid: u64,
}

impl Loan {
    /// Well-formedness: the used-nullifier list stays within capacity.
    pub open spec fn wf(self) -> bool {
        self.used_nullifier@.len() <= MAX_USED_NULLIFIERS
    }
}

/// The monotonic loan-id generator; one instance, never destroyed.
#[derive(Clone, Copy, Debug)]
pub struct LoanCounter {
    /// Next id to hand out.
    pub next_loan_id: u64,
    /// Loans ever requested.
    pub total_loans: u64,
    /// Loans currently active.
    pub active_loans: u64,
}

/// Shared liquidity accounting of one pool.
#[derive(Clone, Debug)]
pub struct LendingPool {
    /// Pool administrator.
    pub authority: [u8; 32],
    /// Asset the pool lends.
    pub token_mint: [u8; 32],
    /// Account holding the pool's funds.
    pub pool_token_account: [u8; 32],
    /// Display name.
    pub pool_name: String,
    /// All deposits ever net of withdrawals.
    pub total_deposits: u64,
    /// Liquidity currently available to lend.
    pub available_liquidity: u64,
    /// Principal currently out on loans.
    pub total_borrowed: u64,
    /// Interest collected across all loans.
    pub cumalative_interest: u64,
    /// Loans currently active against the pool.
    pub active_loan_count: u32,
    /// Loans ever made against the pool.
    pub total_loan_count: u32,
    /// Whether new activity is paused.
    pub paused: bool,
    /// Creation time.
    pub created_at: i64,
}

impl LendingPool {
    /// Ledger balance: what is available plus what is out equals what
    /// was deposited.
    pub open spec fn balanced(self) -> bool {
        self.available_liquidity + self.total_borrowed == self.total_deposits
    }
}

/// One lender's position in a pool.
#[derive(Clone, Copy, Debug)]
pub struct LenderAccount {
    /// Lender identity.
    pub lender: [u8; 32],
    /// Pool the position belongs to.
    pub pool: [u8; 32],
    /// Amount the lender deposited.
    pub deposited_amount: u64,
    /// Amount free to lend.
    pub available_amount: u64,
    /// Amount currently lent out.
    pub lent_amount: u64,
    /// Interest credited to the lender.
    pub interest_earned: u64,
    /// Amount withdrawn over time.
    pub total_withdrawal: u64,
    /// Last deposit time.
    pub last_deposited_time: i64,
}

impl LenderAccount {
    /// Position balance: what is free plus what is lent equals what was
    /// deposited; interest is credited separately.
    pub open spec fn balanced(self) -> bool {
        self.available_amount + self.lent_amount == self.deposited_amount
    }
}

} // verus!
