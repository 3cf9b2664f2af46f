//! Time-weighted simple interest.
//!
//! Interest is non-compounding, computed in a widened integer domain
//! before narrowing, and truncated toward zero. Negative elapsed time
//! (clock regression) is treated as an arithmetic error.

use vstd::prelude::*;

use crate::constants::{BASIS_POINTS_DIVISOR, SECONDS_PER_YEAR};
use crate::errors::LoanManagerError;

verus! {

/// Simple interest over the mathematical integers: principal at
/// `rate_bps` basis points per year over `elapsed` seconds, truncated
/// toward zero.
pub open spec fn spec_interest_int(principal: int, rate_bps: int, elapsed: int) -> int {
    ((principal * rate_bps * elapsed) / (SECONDS_PER_YEAR as int)) / (BASIS_POINTS_DIVISOR as int)
}

/// Simple interest accrued on `principal` at `rate_bps` basis points per
/// year over `elapsed` seconds, truncated toward zero.
pub open spec fn spec_interest(principal: u64, rate_bps: u16, elapsed: i64) -> int
    recommends
        elapsed >= 0,
{
    spec_interest_int(principal as int, rate_bps as int, elapsed as int)
}

/// Whether the widened interest product fits the working domain, so that
/// accrual can be computed at all.
pub open spec fn spec_interest_computable(principal: u64, rate_bps: u16, elapsed: i64) -> bool {
    &&& elapsed >= 0
    &&& principal * rate_bps * elapsed <= u128::MAX
    &&& spec_interest(principal, rate_bps, elapsed) <= u64::MAX
}

/// Compute accrued interest. Fails closed on clock regression or when a
/// widened intermediate or the final value does not fit.
pub fn calculate_interest(principal: u64, rate_bps: u16, elapsed: i64) -> (r: Result<
    u64,
    LoanManagerError,
>)
    ensures
        r is Ok <==> spec_interest_computable(principal, rate_bps, elapsed),
        r matches Ok(v) ==> v == spec_interest(principal, rate_bps, elapsed),
        r matches Err(e) ==> e == LoanManagerError::ArithmeticOverflow,
{
    if elapsed < 0 {
        return Err(LoanManagerError::ArithmeticOverflow);
    }
    proof {
        assert((principal as u128) * (rate_bps as u128) <= (u64::MAX as u128) * (u16::MAX as u128))
            by (nonlinear_arith)
            requires
                principal <= u64::MAX,
                rate_bps <= u16::MAX,
        ;
    }
    let per_year: u128 = (principal as u128) * (rate_bps as u128);
    let product: u128 = match per_year.checked_mul(elapsed as u128) {
        Some(p) => p,
        None => {
            return Err(LoanManagerError::ArithmeticOverflow);
        },
    };
    let scaled: u128 = (product / (SECONDS_PER_YEAR as u128)) / (BASIS_POINTS_DIVISOR as u128);
    if scaled <= u64::MAX as u128 {
        Ok(scaled as u64)
    } else {
        Err(LoanManagerError::ArithmeticOverflow)
    }
}

/// Zero elapsed time accrues zero interest.
pub proof fn lemma_interest_zero_elapsed(principal: u64, rate_bps: u16)
    ensures
        spec_interest(principal, rate_bps, 0) == 0,
{
}

/// A full year accrues exactly `principal * rate / 10000`, up to the
/// truncation of integer division.
pub proof fn lemma_interest_full_year(principal: u64, rate_bps: u16)
    ensures
        spec_interest(principal, rate_bps, SECONDS_PER_YEAR) == (principal * rate_bps) / (
        BASIS_POINTS_DIVISOR as int),
{
    let p = principal as int;
    let r = rate_bps as int;
    let y = SECONDS_PER_YEAR as int;
    assert((p * r * y) / y == p * r) by (nonlinear_arith)
        requires
            y > 0,
    ;
}

} // verus!
