//! Credit-tier resolution: pure mapping from a credit signal to the
//! required collateral ratio, in basis points.

use vstd::prelude::*;

use crate::constants::{
    BASIS_POINTS_DIVISOR, COLLATERAL_RATIO_EXCELLENT, COLLATERAL_RATIO_FAIR,
    COLLATERAL_RATIO_GOOD, COLLATERAL_RATIO_POOR, COLLATERAL_RATIO_VERY_GOOD,
};
use crate::errors::LoanManagerError;

verus! {

/// Required collateral ratio (bps) for a credit score, by tier band.
pub open spec fn spec_ratio_for_score(score: u16) -> u16 {
    if score >= 900 {
        COLLATERAL_RATIO_EXCELLENT
    } else if score >= 800 {
        COLLATERAL_RATIO_VERY_GOOD
    } else if score >= 700 {
        COLLATERAL_RATIO_GOOD
    } else if score >= 600 {
        COLLATERAL_RATIO_FAIR
    } else {
        COLLATERAL_RATIO_POOR
    }
}

/// Tier indicator carried in the two leading bytes of a score
/// commitment, read little-endian.
pub open spec fn spec_tier_indicator(c: Seq<u8>) -> u16
    recommends
        c.len() >= 2,
{
    (c[0] + c[1] * 0x100) as u16
}

/// Required collateral ratio for a credit score.
pub fn get_required_collateral_ratio(credit_score: u16) -> (r: u16)
    ensures
        r == spec_ratio_for_score(credit_score),
{
    if credit_score >= 900 {
        COLLATERAL_RATIO_EXCELLENT
    } else if credit_score >= 800 {
        COLLATERAL_RATIO_VERY_GOOD
    } else if credit_score >= 700 {
        COLLATERAL_RATIO_GOOD
    } else if credit_score >= 600 {
        COLLATERAL_RATIO_FAIR
    } else {
        COLLATERAL_RATIO_POOR
    }
}

/// Decode the tier indicator from the leading bytes of a score commitment
/// and map it to the required collateral ratio. An acknowledged partial
/// privacy leak: the band, not the score, is visible.
pub fn extract_score_tire_from_commitment(commitment: &[u8; 32]) -> (r: u16)
    ensures
        r == spec_ratio_for_score(spec_tier_indicator(commitment@)),
{
    let lo: u16 = commitment[0] as u16;
    let hi: u16 = commitment[1] as u16;
    let tire_indicator: u16 = lo + hi * 0x100;
    get_required_collateral_ratio(tire_indicator)
}

/// Collateral requirement (bps) for a credit score, as the scoring
/// service reports it. The same banding as
/// [`get_required_collateral_ratio`].
pub fn get_collateral_requirement(score: u16) -> (r: u16)
    ensures
        r == spec_ratio_for_score(score),
{
    get_required_collateral_ratio(score)
}

/// Name of the tier band a credit score falls in.
pub open spec fn spec_score_tier(score: u16) -> Seq<char> {
    if score >= 900 {
        "Excellent"@
    } else if score >= 800 {
        "Very Good"@
    } else if score >= 700 {
        "Good"@
    } else if score >= 600 {
        "Fair"@
    } else {
        "Poor"@
    }
}

/// Name of the tier band a credit score falls in.
pub fn get_score_tier(score: u16) -> (r: &'static str)
    ensures
        r@ == spec_score_tier(score),
{
    if score >= 900 {
        "Excellent"
    } else if score >= 800 {
        "Very Good"
    } else if score >= 700 {
        "Good"
    } else if score >= 600 {
        "Fair"
    } else {
        "Poor"
    }
}

/// Collateral required for a loan amount at a ratio in basis points,
/// rounded toward zero.
pub open spec fn spec_required_collateral(loan_amount: u64, collateral_ratio: u16) -> int {
    (loan_amount * collateral_ratio) / (BASIS_POINTS_DIVISOR as int)
}

/// Compute the collateral a loan amount requires at a tier's ratio.
/// Fails closed when the result does not fit in 64 bits.
pub fn calculate_required_collateral(loan_amount: u64, collateral_ratio: u16) -> (r: Result<
    u64,
    LoanManagerError,
>)
    ensures
        r is Ok <==> spec_required_collateral(loan_amount, collateral_ratio) <= u64::MAX,
        r matches Ok(v) ==> v == spec_required_collateral(loan_amount, collateral_ratio),
        r matches Err(e) ==> e == LoanManagerError::ArithmeticOverflow,
{
    proof {
        assert((loan_amount as u128) * (collateral_ratio as u128) <= (u64::MAX as u128) * (
        u16::MAX as u128)) by (nonlinear_arith)
            requires
                loan_amount <= u64::MAX,
                collateral_ratio <= u16::MAX,
        ;
    }
    let wide: u128 = (loan_amount as u128) * (collateral_ratio as u128);
    let required: u128 = wide / (BASIS_POINTS_DIVISOR as u128);
    if required <= u64::MAX as u128 {
        Ok(required as u64)
    } else {
        Err(LoanManagerError::ArithmeticOverflow)
    }
}

} // verus!
