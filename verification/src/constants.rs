//! Protocol-wide constant values.

use vstd::prelude::*;

verus! {

/// Minimum loan amount (100 tokens with 6 decimals).
pub const MIN_LOAN_AMOUNT: u64 = 100_000_000;

/// Maximum loan amount (1,000,000 tokens with 6 decimals).
pub const MAX_LOAN_AMOUNT: u64 = 1_000_000_000_000;

/// Minimum loan duration (1 day in seconds).
pub const MIN_LOAN_DURATION: i64 = 86_400;

/// Maximum loan duration (365 days in seconds).
pub const MAX_LOAN_DURATION: i64 = 31_536_000;

/// Default interest rate (8% APR in basis points).
pub const DEFAULT_INTEREST_RATE: u16 = 800;

/// Maximum credit proof age (12 hours in seconds).
pub const MAX_CREDIT_PROOF_AGE: i64 = 43_200;

/// Collateral ratio for credit scores of 900 and above (50%).
pub const COLLATERAL_RATIO_EXCELLENT: u16 = 5000;

/// Collateral ratio for credit scores 800-899 (75%).
pub const COLLATERAL_RATIO_VERY_GOOD: u16 = 7500;

/// Collateral ratio for credit scores 700-799 (100%).
pub const COLLATERAL_RATIO_GOOD: u16 = 10000;

/// Collateral ratio for credit scores 600-699 (125%).
pub const COLLATERAL_RATIO_FAIR: u16 = 12500;

/// Collateral ratio for credit scores below 600 (150%).
pub const COLLATERAL_RATIO_POOR: u16 = 15000;

/// Minimum credit score accepted by the scoring service.
pub const MIN_CREDIT_SCORE: u16 = 600;

/// Maximum credit score issued by the scoring service.
pub const MAX_CREDIT_SCORE: u16 = 1000;

/// Validity period of an issued credit score (12 hours in seconds).
pub const SCORE_VALIDITY_PERIOD: i64 = 43_200;

/// Health factor at or below which a warning is advised (1.2x).
pub const HEALTH_FACTOR_WARNING: u16 = 120;

/// Health factor at or below which the position is critical (1.0x).
pub const HEALTH_FACTOR_CRITICAL: u16 = 100;

/// Health factor at or below which the loan defaults (0.9x).
pub const HEALTH_FACTOR_LIQUIDATION: u16 = 90;

/// Seconds in a year, for interest accrual.
pub const SECONDS_PER_YEAR: i64 = 31_536_000;

/// Divisor for ratios expressed in basis points.
pub const BASIS_POINTS_DIVISOR: u64 = 10000;

/// Capacity of a loan's used-nullifier list.
pub const MAX_USED_NULLIFIERS: usize = 10;

} // verus!
