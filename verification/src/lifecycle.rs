//! The loan state machine.
//!
//! Each operation is one atomic transition over every entity it touches:
//! it either applies in full or leaves every entity unchanged and
//! returns the error that the first failing check produced.

use vstd::prelude::*;

use crate::commitment::{
    any_nonzero, bytes32_eq, spec_any_nonzero, spec_commitment_matches, spec_nullifier_used,
    verify_nullifier_unused, verify_privacy_commitment,
};
use crate::constants::{
    BASIS_POINTS_DIVISOR, DEFAULT_INTEREST_RATE, HEALTH_FACTOR_CRITICAL, HEALTH_FACTOR_LIQUIDATION,
    HEALTH_FACTOR_WARNING, MAX_LOAN_AMOUNT, MAX_LOAN_DURATION, MAX_USED_NULLIFIERS,
    MIN_LOAN_AMOUNT, MIN_LOAN_DURATION,
};
use crate::credit::{spec_credit_proof_error, verify_noir_credit_proof, NoirCreditProof};
use crate::errors::LoanManagerError;
use crate::interest::{calculate_interest, spec_interest_computable, spec_interest_int};
use crate::state::{LenderAccount, LendingPool, Loan, LoanCounter, LoanStatus, PrivateAmount};
use crate::tier::{
    calculate_required_collateral, extract_score_tire_from_commitment, spec_ratio_for_score,
    spec_required_collateral, spec_tier_indicator,
};

verus! {

/// Whether a loan in status `s` can be approved.
pub open spec fn spec_can_approve(s: LoanStatus) -> bool {
    s == LoanStatus::Pending
}

/// Whether a loan in status `s` can be disbursed.
pub open spec fn spec_can_disburse(s: LoanStatus) -> bool {
    s == LoanStatus::Approved
}

/// Whether a loan in status `s` accepts repayments, collateral top-ups
/// and health updates.
pub open spec fn spec_is_outstanding(s: LoanStatus) -> bool {
    s == LoanStatus::Active || s == LoanStatus::PartiallyRepaid
}

/// Status after a health update: at or below the liquidation band the
/// loan is forced into default, otherwise the status stands.
pub open spec fn spec_health_status(prev: LoanStatus, hf: u16) -> LoanStatus {
    if hf <= HEALTH_FACTOR_LIQUIDATION {
        LoanStatus::Defaulted
    } else {
        prev
    }
}

/// Warning flag after a health update: set in the critical and warning
/// bands, cleared above them, untouched when the loan defaults.
pub open spec fn spec_health_warning(prev: bool, hf: u16) -> bool {
    if hf <= HEALTH_FACTOR_LIQUIDATION {
        prev
    } else if hf <= HEALTH_FACTOR_WARNING {
        true
    } else {
        false
    }
}

/// Overwrite a loan's collateral valuation and health factor with the
/// monitor's values and classify the result: at or below 90 the loan is
/// forced Defaulted; at or below 120 a warning is flagged; above 120 a
/// standing warning is cleared.
pub fn update_health_factor(
    loan: &mut Loan,
    collateral_value_usd: u64,
    new_health_factor: u16,
    now: i64,
) -> (r: Result<(), LoanManagerError>)
    ensures
        r is Ok <==> spec_is_outstanding(old(loan).status),
        r matches Err(e) ==> e == LoanManagerError::InvalidLoanStatus && *final(loan) == *old(
            loan,
        ),
        r is Ok ==> *final(loan) == (Loan {
            collateral_value_usd,
            health_factor: new_health_factor,
            last_health_check: now,
            status: spec_health_status(old(loan).status, new_health_factor),
            warning_sent: spec_health_warning(old(loan).warning_sent, new_health_factor),
            ..*old(loan)
        }),
{
    if !(loan.status == LoanStatus::Active || loan.status == LoanStatus::PartiallyRepaid) {
        return Err(LoanManagerError::InvalidLoanStatus);
    }
    loan.collateral_value_usd = collateral_value_usd;
    loan.health_factor = new_health_factor;
    loan.last_health_check = now;
    if new_health_factor <= HEALTH_FACTOR_LIQUIDATION {
        loan.status = LoanStatus::Defaulted;
    } else if new_health_factor <= HEALTH_FACTOR_CRITICAL {
        loan.warning_sent = true;
    } else if new_health_factor <= HEALTH_FACTOR_WARNING {
        loan.warning_sent = true;
    } else {
        if loan.warning_sent {
            loan.warning_sent = false;
        }
    }
    Ok(())
}

/// The first refusal, if any, that approving a loan runs into.
pub open spec fn spec_approve_error(
    loan: Loan,
    pool: LendingPool,
    lender_account: LenderAccount,
    lender: Seq<u8>,
) -> Option<LoanManagerError> {
    if !spec_can_approve(loan.status) {
        Some(LoanManagerError::InvalidLoanStatus)
    } else if lender_account.lender@ != lender {
        Some(LoanManagerError::UnauthorizedLender)
    } else if pool.available_liquidity < loan.principal_range.1 {
        Some(LoanManagerError::InsufficientPoolLiquidity)
    } else if lender_account.available_amount < loan.principal_range.1 {
        Some(LoanManagerError::InsufficientPoolLiquidity)
    } else {
        None
    }
}

/// Match a pending loan with a lender. Requires the pool and the
/// lender's free balance to cover the range maximum — a soft
/// reservation, not an atomic lock. On success the lender is recorded
/// and the loan moves to `Approved`; nothing else changes.
pub fn approve_loan(
    loan: &mut Loan,
    pool: &LendingPool,
    lender_account: &LenderAccount,
    lender: [u8; 32],
) -> (r: Result<(), LoanManagerError>)
    ensures
        r is Ok <==> spec_approve_error(*old(loan), *pool, *lender_account, lender@) is None,
        r matches Err(e) ==> Some(e) == spec_approve_error(
            *old(loan),
            *pool,
            *lender_account,
            lender@,
        ) && *final(loan) == *old(loan),
        r is Ok ==> *final(loan) == (Loan {
            lender,
            status: LoanStatus::Approved,
            ..*old(loan)
        }),
{
    if !(loan.status == LoanStatus::Pending) {
        return Err(LoanManagerError::InvalidLoanStatus);
    }
    if !bytes32_eq(&lender_account.lender, &lender) {
        return Err(LoanManagerError::UnauthorizedLender);
    }
    let max_principal = loan.principal_range.1;
    if pool.available_liquidity < max_principal {
        return Err(LoanManagerError::InsufficientPoolLiquidity);
    }
    if lender_account.available_amount < max_principal {
        return Err(LoanManagerError::InsufficientPoolLiquidity);
    }
    loan.lender = lender;
    loan.status = LoanStatus::Approved;
    Ok(())
}

/// Duration in seconds of a requested number of days.
pub open spec fn spec_duration_seconds(duration_days: u16) -> int {
    duration_days * 86400
}

/// The first refusal, if any, that a loan request runs into.
pub open spec fn spec_request_error(
    principal_commitment: [u8; 32],
    principal_range: (u64, u64),
    collateral_commitment: [u8; 32],
    collateral_range: (u64, u64),
    duration_days: u16,
    credit_proof: NoirCreditProof,
    credit_threshold: u16,
    counter: LoanCounter,
    now: i64,
) -> Option<LoanManagerError> {
    let ratio = spec_ratio_for_score(spec_tier_indicator(credit_proof.score_commitment@));
    if principal_range.0 < MIN_LOAN_AMOUNT {
        Some(LoanManagerError::LoanAmountTooLow)
    } else if principal_range.1 > MAX_LOAN_AMOUNT {
        Some(LoanManagerError::LoanAmountTooHigh)
    } else if spec_duration_seconds(duration_days) < MIN_LOAN_DURATION {
        Some(LoanManagerError::DurationTooShort)
    } else if spec_duration_seconds(duration_days) > MAX_LOAN_DURATION {
        Some(LoanManagerError::DurationTooLong)
    } else if spec_credit_proof_error(credit_proof, credit_threshold, now) is Some {
        spec_credit_proof_error(credit_proof, credit_threshold, now)
    } else if !spec_any_nonzero(principal_commitment@) {
        Some(LoanManagerError::InvalidCommitment)
    } else if !spec_any_nonzero(collateral_commitment@) {
        Some(LoanManagerError::InvalidCommitment)
    } else if collateral_range.0 < spec_required_collateral(principal_range.1, ratio) {
        Some(LoanManagerError::InsufficientCollateral)
    } else if counter.next_loan_id + 1 > u64::MAX || counter.total_loans + 1 > u64::MAX {
        Some(LoanManagerError::ArithmeticOverflow)
    } else {
        None
    }
}

/// Create a `Pending` loan record from a valid request.
///
/// Amount bounds and duration are validated, the credit attestation must
/// be fresh and match the demanded threshold, the commitments must be
/// non-trivial, and the declared minimum collateral must cover the
/// required collateral at the *maximum* possible principal — conservative
/// sizing, since the true amount stays hidden. The collateral ratio is
/// derived from the tier indicator of the score commitment. On success
/// the counter hands out the next loan id.
pub fn request_loan(
    counter: &mut LoanCounter,
    borrower: [u8; 32],
    pool: [u8; 32],
    collateral_mint: [u8; 32],
    principal_commitment: [u8; 32],
    principal_nullifier: [u8; 32],
    principal_range: (u64, u64),
    collateral_commitment: [u8; 32],
    collateral_nullifier: [u8; 32],
    collateral_range: (u64, u64),
    duration_days: u16,
    credit_proof: &NoirCreditProof,
    credit_threshold: u16,
    now: i64,
) -> (r: Result<Loan, LoanManagerError>)
    ensures
        r is Ok <==> spec_request_error(
            principal_commitment,
            principal_range,
            collateral_commitment,
            collateral_range,
            duration_days,
            *credit_proof,
            credit_threshold,
            *old(counter),
            now,
        ) is None,
        r matches Err(e) ==> Some(e) == spec_request_error(
            principal_commitment,
            principal_range,
            collateral_commitment,
            collateral_range,
            duration_days,
            *credit_proof,
            credit_threshold,
            *old(counter),
            now,
        ) && *final(counter) == *old(counter),
        r matches Ok(l) ==> {
            &&& l.loan_id == old(counter).next_loan_id
            &&& l.borrower == borrower
            &&& l.lender@ == Seq::new(32, |i: int| 0u8)
            &&& l.pool == pool
            &&& l.principal_commitment.commitment == principal_commitment
            &&& l.principal_commitment.nullifier == principal_nullifier
            &&& l.principal_commitment.amount_range_proof is None
            &&& l.collateral_commitment.commitment == collateral_commitment
            &&& l.collateral_commitment.nullifier == collateral_nullifier
            &&& l.collateral_commitment.amount_range_proof is None
            &&& l.repaid_commitment.commitment@ == Seq::new(32, |i: int| 0u8)
            &&& l.repaid_commitment.nullifier@ == Seq::new(32, |i: int| 0u8)
            &&& l.principal_range == principal_range
            &&& l.collateral_mint == collateral_mint
            &&& l.interest_rate == DEFAULT_INTEREST_RATE
            &&& l.duration == spec_duration_seconds(duration_days)
            &&& l.status == LoanStatus::Pending
            &&& l.start_time == 0
            &&& l.end_time == 0
            &&& l.merkel_root@ == Seq::new(32, |i: int| 0u8)
            &&& l.used_nullifier@.len() == 0
            &&& l.amount_hash@ == Seq::new(32, |i: int| 0u8)
            &&& l.collateral_hash@ == Seq::new(32, |i: int| 0u8)
            &&& l.health_factor == 100
            &&& l.last_health_check == now
            &&& l.collateral_value_usd == 0
            &&& l.warning_sent == false
            &&& l.credit_score == credit_threshold
            &&& l.required_collateral_ratio == spec_ratio_for_score(
                spec_tier_indicator(credit_proof.score_commitment@),
            )
            &&& l.total_repaid == 0
            &&& l.wf()
        },
        r is Ok ==> *final(counter) == (LoanCounter {
            next_loan_id: (old(counter).next_loan_id + 1) as u64,
            total_loans: (old(counter).total_loans + 1) as u64,
            ..*old(counter)
        }),
{
    if principal_range.0 < MIN_LOAN_AMOUNT {
        return Err(LoanManagerError::LoanAmountTooLow);
    }
    if principal_range.1 > MAX_LOAN_AMOUNT {
        return Err(LoanManagerError::LoanAmountTooHigh);
    }
    let duration_seconds: i64 = (duration_days as i64) * 86400;
    if duration_seconds < MIN_LOAN_DURATION {
        return Err(LoanManagerError::DurationTooShort);
    }
    if duration_seconds > MAX_LOAN_DURATION {
        return Err(LoanManagerError::DurationTooLong);
    }
    match verify_noir_credit_proof(credit_proof, credit_threshold, now) {
        Ok(_) => {},
        Err(e) => {
            return Err(e);
        },
    }
    let required_collateral_ratio = extract_score_tire_from_commitment(
        &credit_proof.score_commitment,
    );
    if !any_nonzero(principal_commitment.as_slice()) {
        return Err(LoanManagerError::InvalidCommitment);
    }
    if !any_nonzero(collateral_commitment.as_slice()) {
        return Err(LoanManagerError::InvalidCommitment);
    }
    let max_principal = principal_range.1;
    let min_collateral_amount = collateral_range.0;
    proof {
        assert(max_principal * required_collateral_ratio <= MAX_LOAN_AMOUNT * (u16::MAX as int))
            by (nonlinear_arith)
            requires
                max_principal <= MAX_LOAN_AMOUNT,
                required_collateral_ratio <= u16::MAX,
        ;
    }
    let required_collateral = match calculate_required_collateral(
        max_principal,
        required_collateral_ratio,
    ) {
        Ok(v) => v,
        Err(e) => {
            return Err(e);
        },
    };
    if min_collateral_amount < required_collateral {
        return Err(LoanManagerError::InsufficientCollateral);
    }
    let loan_id = counter.next_loan_id;
    let next = match counter.next_loan_id.checked_add(1) {
        Some(v) => v,
        None => {
            return Err(LoanManagerError::ArithmeticOverflow);
        },
    };
    let total = match counter.total_loans.checked_add(1) {
        Some(v) => v,
        None => {
            return Err(LoanManagerError::ArithmeticOverflow);
        },
    };
    counter.next_loan_id = next;
    counter.total_loans = total;
    let loan = Loan {
        loan_id,
        borrower,
        lender: [0u8; 32],
        pool,
        principal_commitment: PrivateAmount::new(principal_commitment, principal_nullifier),
        collateral_commitment: PrivateAmount::new(collateral_commitment, collateral_nullifier),
        repaid_commitment: PrivateAmount::default(),
        principal_range,
        collateral_mint,
        interest_rate: DEFAULT_INTEREST_RATE,
        duration: duration_seconds,
        status: LoanStatus::Pending,
        start_time: 0,
        end_time: 0,
        merkel_root: [0u8; 32],
        used_nullifier: Vec::new(),
        amount_hash: [0u8; 32],
        collateral_hash: [0u8; 32],
        health_factor: 100,
        last_health_check: now,
        collateral_value_usd: 0,
        warning_sent: false,
        credit_score: credit_threshold,
        required_collateral_ratio,
        total_repaid: 0,
    };
    proof {
        assert(loan.lender@ =~= Seq::new(32, |i: int| 0u8));
        assert(loan.merkel_root@ =~= Seq::new(32, |i: int| 0u8));
        assert(loan.amount_hash@ =~= Seq::new(32, |i: int| 0u8));
        assert(loan.collateral_hash@ =~= Seq::new(32, |i: int| 0u8));
    }
    Ok(loan)
}

/// The first refusal, if any, that disbursing a loan runs into.
pub open spec fn spec_disburse_error(
    loan: Loan,
    pool: LendingPool,
    lender_account: LenderAccount,
    caller: [u8; 32],
    actual_principal: u64,
    actual_collateral: u64,
    principal_secret: [u8; 32],
    collateral_secret: [u8; 32],
    now: i64,
) -> Option<LoanManagerError> {
    if loan.borrower@ != caller@ {
        Some(LoanManagerError::UnauthorizedBorrower)
    } else if !spec_can_disburse(loan.status) {
        Some(LoanManagerError::LoanNotApproved)
    } else if !spec_commitment_matches(
        loan.principal_commitment.commitment@,
        principal_secret@,
        actual_principal,
    ) {
        Some(LoanManagerError::InvalidCommitment)
    } else if !spec_commitment_matches(
        loan.collateral_commitment.commitment@,
        collateral_secret@,
        actual_collateral,
    ) {
        Some(LoanManagerError::InvalidCommitment)
    } else if !(loan.principal_range.0 <= actual_principal && actual_principal
        <= loan.principal_range.1) {
        Some(LoanManagerError::InvalidCommitment)
    } else if spec_nullifier_used(loan.used_nullifier@, loan.principal_commitment.nullifier@) {
        Some(LoanManagerError::NullifierAlreadyUsed)
    } else if spec_nullifier_used(loan.used_nullifier@, loan.collateral_commitment.nullifier@) {
        Some(LoanManagerError::NullifierAlreadyUsed)
    } else if pool.available_liquidity < actual_principal {
        Some(LoanManagerError::InsufficientPoolLiquidity)
    } else if lender_account.available_amount < actual_principal {
        Some(LoanManagerError::InsufficientPoolLiquidity)
    } else if pool.total_borrowed + actual_principal > u64::MAX {
        Some(LoanManagerError::ArithmeticOverflow)
    } else if pool.active_loan_count + 1 > u32::MAX {
        Some(LoanManagerError::ArithmeticOverflow)
    } else if lender_account.lent_amount + actual_principal > u64::MAX {
        Some(LoanManagerError::ArithmeticOverflow)
    } else if loan.used_nullifier@.len() + 2 > MAX_USED_NULLIFIERS {
        Some(LoanManagerError::NullifierListFull)
    } else if now + loan.duration > i64::MAX || now + loan.duration < i64::MIN {
        Some(LoanManagerError::ArithmeticOverflow)
    } else {
        None
    }
}

/// The pool after a disbursement of `actual`: liquidity moves from
/// available to borrowed and one more loan is active.
pub open spec fn spec_disburse_pool(p: LendingPool, actual: u64) -> LendingPool {
    LendingPool {
        available_liquidity: (p.available_liquidity - actual) as u64,
        total_borrowed: (p.total_borrowed + actual) as u64,
        active_loan_count: (p.active_loan_count + 1) as u32,
        ..p
    }
}

/// The lender's position after a disbursement of `actual`: the amount
/// moves from available to lent.
pub open spec fn spec_disburse_lender(a: LenderAccount, actual: u64) -> LenderAccount {
    LenderAccount {
        available_amount: (a.available_amount - actual) as u64,
        lent_amount: (a.lent_amount + actual) as u64,
        ..a
    }
}

/// Disburse an approved loan. The borrower reveals the secrets and
/// actual amounts behind both commitments; both must verify, the actual
/// principal must lie within the declared range, and both nullifiers
/// must be fresh. On success the actual principal moves out of the pool
/// and the lender's free balance, both nullifiers are marked used, and
/// the loan runs from `now` for its agreed duration.
pub fn disburse_loan(
    loan: &mut Loan,
    pool: &mut LendingPool,
    lender_account: &mut LenderAccount,
    caller: [u8; 32],
    actual_principal: u64,
    actual_collateral: u64,
    principal_secret: [u8; 32],
    collateral_secret: [u8; 32],
    now: i64,
) -> (r: Result<(), LoanManagerError>)
    ensures
        r is Ok <==> spec_disburse_error(
            *old(loan),
            *old(pool),
            *old(lender_account),
            caller,
            actual_principal,
            actual_collateral,
            principal_secret,
            collateral_secret,
            now,
        ) is None,
        r matches Err(e) ==> Some(e) == spec_disburse_error(
            *old(loan),
            *old(pool),
            *old(lender_account),
            caller,
            actual_principal,
            actual_collateral,
            principal_secret,
            collateral_secret,
            now,
        ) && *final(loan) == *old(loan) && *final(pool) == *old(pool) && *final(lender_account)
            == *old(lender_account),
        r is Ok ==> {
            &&& old(loan).principal_range.0 <= actual_principal && actual_principal <= old(
                loan,
            ).principal_range.1
            &&& *final(pool) == spec_disburse_pool(*old(pool), actual_principal)
            &&& *final(lender_account) == spec_disburse_lender(
                *old(lender_account),
                actual_principal,
            )
            &&& final(loan).used_nullifier@ == old(loan).used_nullifier@.push(
                old(loan).collateral_commitment.nullifier,
            ).push(old(loan).principal_commitment.nullifier)
            &&& *final(loan) == (Loan {
                status: LoanStatus::Active,
                start_time: now,
                end_time: (now + old(loan).duration) as i64,
                used_nullifier: final(loan).used_nullifier,
                ..*old(loan)
            })
            &&& spec_nullifier_used(
                final(loan).used_nullifier@,
                old(loan).principal_commitment.nullifier@,
            )
            &&& spec_nullifier_used(
                final(loan).used_nullifier@,
                old(loan).collateral_commitment.nullifier@,
            )
            &&& old(loan).wf() ==> final(loan).wf()
        },
        old(pool).balanced() && r is Ok ==> final(pool).balanced(),
        old(lender_account).balanced() && r is Ok ==> final(lender_account).balanced(),
{
    if !bytes32_eq(&loan.borrower, &caller) {
        return Err(LoanManagerError::UnauthorizedBorrower);
    }
    if !(loan.status == LoanStatus::Approved) {
        return Err(LoanManagerError::LoanNotApproved);
    }
    let principal_valid = match verify_privacy_commitment(
        loan.principal_commitment.commitment,
        principal_secret,
        actual_principal,
    ) {
        Ok(v) => v,
        Err(e) => {
            return Err(e);
        },
    };
    if !principal_valid {
        return Err(LoanManagerError::InvalidCommitment);
    }
    let collateral_valid = match verify_privacy_commitment(
        loan.collateral_commitment.commitment,
        collateral_secret,
        actual_collateral,
    ) {
        Ok(v) => v,
        Err(e) => {
            return Err(e);
        },
    };
    if !collateral_valid {
        return Err(LoanManagerError::InvalidCommitment);
    }
    if !(loan.principal_range.0 <= actual_principal && actual_principal <= loan.principal_range.1)
    {
        return Err(LoanManagerError::InvalidCommitment);
    }
    match verify_nullifier_unused(&loan.principal_commitment.nullifier, &loan.used_nullifier) {
        Ok(_) => {},
        Err(e) => {
            return Err(e);
        },
    }
    match verify_nullifier_unused(&loan.collateral_commitment.nullifier, &loan.used_nullifier) {
        Ok(_) => {},
        Err(e) => {
            return Err(e);
        },
    }
    if pool.available_liquidity < actual_principal {
        return Err(LoanManagerError::InsufficientPoolLiquidity);
    }
    if lender_account.available_amount < actual_principal {
        return Err(LoanManagerError::InsufficientPoolLiquidity);
    }
    let new_borrowed = match pool.total_borrowed.checked_add(actual_principal) {
        Some(v) => v,
        None => {
            return Err(LoanManagerError::ArithmeticOverflow);
        },
    };
    let new_active = match pool.active_loan_count.checked_add(1) {
        Some(v) => v,
        None => {
            return Err(LoanManagerError::ArithmeticOverflow);
        },
    };
    let new_lent = match lender_account.lent_amount.checked_add(actual_principal) {
        Some(v) => v,
        None => {
            return Err(LoanManagerError::ArithmeticOverflow);
        },
    };
    if loan.used_nullifier.len() > MAX_USED_NULLIFIERS - 2 {
        return Err(LoanManagerError::NullifierListFull);
    }
    let end_time = match now.checked_add(loan.duration) {
        Some(v) => v,
        None => {
            return Err(LoanManagerError::ArithmeticOverflow);
        },
    };
    pool.available_liquidity = pool.available_liquidity - actual_principal;
    pool.total_borrowed = new_borrowed;
    pool.active_loan_count = new_active;
    lender_account.available_amount = lender_account.available_amount - actual_principal;
    lender_account.lent_amount = new_lent;
    let collateral_nullifier = loan.collateral_commitment.nullifier;
    let principal_nullifier = loan.principal_commitment.nullifier;
    loan.used_nullifier.push(collateral_nullifier);
    loan.used_nullifier.push(principal_nullifier);
    loan.status = LoanStatus::Active;
    loan.start_time = now;
    loan.end_time = end_time;
    proof {
        let l = loan.used_nullifier@;
        assert(l[l.len() - 1] == old(loan).principal_commitment.nullifier);
        assert(l[l.len() - 2] == old(loan).collateral_commitment.nullifier);
    }
    Ok(())
}

/// Midpoint of a declared range, the principal proxy used while the
/// true amount stays hidden.
pub open spec fn spec_midpoint(range: (u64, u64)) -> int {
    (range.0 + range.1) / 2
}

/// Health factor after a collateral top-up of `amount`: the estimated
/// collateral (midpoint of the declared range at the required ratio)
/// plus the top-up, over the estimated collateral, scaled to the
/// 100-based representation.
pub open spec fn spec_topup_health(loan: Loan, amount: u64) -> int {
    let est_collateral = spec_midpoint(loan.principal_range) * loan.required_collateral_ratio / (
    BASIS_POINTS_DIVISOR as int);
    (est_collateral + amount) * 10000 / est_collateral / 100
}

/// The first refusal, if any, that a collateral top-up runs into.
pub open spec fn spec_add_collateral_error(
    loan: Loan,
    caller: [u8; 32],
    additional_commitment: [u8; 32],
    additional_nullifier: [u8; 32],
    amount: u64,
    secret: [u8; 32],
) -> Option<LoanManagerError> {
    let est_principal = spec_midpoint(loan.principal_range);
    let est_collateral = est_principal * loan.required_collateral_ratio / (
    BASIS_POINTS_DIVISOR as int);
    if loan.borrower@ != caller@ {
        Some(LoanManagerError::UnauthorizedBorrower)
    } else if !spec_is_outstanding(loan.status) {
        Some(LoanManagerError::InvalidLoanStatus)
    } else if !spec_commitment_matches(additional_commitment@, secret@, amount) {
        Some(LoanManagerError::InvalidCommitment)
    } else if spec_nullifier_used(loan.used_nullifier@, additional_nullifier@) {
        Some(LoanManagerError::NullifierAlreadyUsed)
    } else if amount == 0 {
        Some(LoanManagerError::InsufficientCollateral)
    } else if loan.used_nullifier@.len() + 1 > MAX_USED_NULLIFIERS {
        Some(LoanManagerError::NullifierListFull)
    } else if loan.principal_range.0 + loan.principal_range.1 > u64::MAX {
        Some(LoanManagerError::ArithmeticOverflow)
    } else if est_principal * loan.required_collateral_ratio > u64::MAX {
        Some(LoanManagerError::ArithmeticOverflow)
    } else if est_collateral + amount > u64::MAX {
        Some(LoanManagerError::ArithmeticOverflow)
    } else if est_collateral == 0 {
        Some(LoanManagerError::ArithmeticOverflow)
    } else if spec_topup_health(loan, amount) > u16::MAX {
        Some(LoanManagerError::ArithmeticOverflow)
    } else {
        None
    }
}

/// Add collateral to an outstanding loan. The borrower reveals the
/// secret and amount behind a fresh commitment; the nullifier is marked
/// used, the collateral moves into custody, and the health factor is
/// recomputed from the estimated collateral value. The declared
/// principal range is untouched. A standing warning is cleared once the
/// health factor rises above the warning band.
pub fn add_collateral(
    loan: &mut Loan,
    caller: [u8; 32],
    additional_commitment: [u8; 32],
    additional_nullifier: [u8; 32],
    actual_additional_amount: u64,
    additional_secret: [u8; 32],
) -> (r: Result<(), LoanManagerError>)
    ensures
        r is Ok <==> spec_add_collateral_error(
            *old(loan),
            caller,
            additional_commitment,
            additional_nullifier,
            actual_additional_amount,
            additional_secret,
        ) is None,
        r matches Err(e) ==> Some(e) == spec_add_collateral_error(
            *old(loan),
            caller,
            additional_commitment,
            additional_nullifier,
            actual_additional_amount,
            additional_secret,
        ) && *final(loan) == *old(loan),
        r is Ok ==> {
            &&& final(loan).used_nullifier@ == old(loan).used_nullifier@.push(
                additional_nullifier,
            )
            &&& spec_nullifier_used(final(loan).used_nullifier@, additional_nullifier@)
            &&& final(loan).principal_range == old(loan).principal_range
            &&& final(loan).status == old(loan).status
            &&& *final(loan) == (Loan {
                used_nullifier: final(loan).used_nullifier,
                health_factor: spec_topup_health(*old(loan), actual_additional_amount) as u16,
                warning_sent: old(loan).warning_sent && spec_topup_health(
                    *old(loan),
                    actual_additional_amount,
                ) <= HEALTH_FACTOR_WARNING,
                ..*old(loan)
            })
            &&& old(loan).wf() ==> final(loan).wf()
        },
{
    if !bytes32_eq(&loan.borrower, &caller) {
        return Err(LoanManagerError::UnauthorizedBorrower);
    }
    if !(loan.status == LoanStatus::Active || loan.status == LoanStatus::PartiallyRepaid) {
        return Err(LoanManagerError::InvalidLoanStatus);
    }
    let commitment_valid = match verify_privacy_commitment(
        additional_commitment,
        additional_secret,
        actual_additional_amount,
    ) {
        Ok(v) => v,
        Err(e) => {
            return Err(e);
        },
    };
    if !commitment_valid {
        return Err(LoanManagerError::InvalidCommitment);
    }
    match verify_nullifier_unused(&additional_nullifier, &loan.used_nullifier) {
        Ok(_) => {},
        Err(e) => {
            return Err(e);
        },
    }
    if actual_additional_amount == 0 {
        return Err(LoanManagerError::InsufficientCollateral);
    }
    if loan.used_nullifier.len() > MAX_USED_NULLIFIERS - 1 {
        return Err(LoanManagerError::NullifierListFull);
    }
    let range_sum = match loan.principal_range.0.checked_add(loan.principal_range.1) {
        Some(v) => v,
        None => {
            return Err(LoanManagerError::ArithmeticOverflow);
        },
    };
    let estimated_principal: u64 = range_sum / 2;
    let scaled = match estimated_principal.checked_mul(loan.required_collateral_ratio as u64) {
        Some(v) => v,
        None => {
            return Err(LoanManagerError::ArithmeticOverflow);
        },
    };
    let estimated_collateral: u64 = scaled / BASIS_POINTS_DIVISOR;
    let new_collateral_value = match estimated_collateral.checked_add(actual_additional_amount) {
        Some(v) => v,
        None => {
            return Err(LoanManagerError::ArithmeticOverflow);
        },
    };
    if estimated_collateral == 0 {
        return Err(LoanManagerError::ArithmeticOverflow);
    }
    let health_wide: u128 = (new_collateral_value as u128) * 10000 / (
    estimated_collateral as u128) / 100;
    if health_wide > u16::MAX as u128 {
        return Err(LoanManagerError::ArithmeticOverflow);
    }
    let new_health_factor: u16 = health_wide as u16;
    loan.used_nullifier.push(additional_nullifier);
    loan.health_factor = new_health_factor;
    if new_health_factor > HEALTH_FACTOR_WARNING && loan.warning_sent {
        loan.warning_sent = false;
    }
    proof {
        let l = loan.used_nullifier@;
        assert(l[l.len() - 1] == additional_nullifier);
    }
    Ok(())
}

/// What a repayment did: paid the loan off in full, or reduced it.
#[derive(Clone, Copy, Debug, PartialEq, Eq, Structural)]
pub enum RepaymentOutcome {
    /// The loan is fully repaid; this much collateral is released back
    /// to the borrower.
    Full {
        /// Collateral to release, at the estimated principal and the
        /// loan's required ratio.
        collateral_released: u64,
    },
    /// A partial repayment was recorded.
    Partial {
        /// What remains owed after this payment.
        remaining_balance: u64,
        /// Share of the total owed that is repaid so far, in percent.
        repayment_percentage: u16,
    },
}

/// The part of a payment that services interest: the payment itself when
/// it does not cover the interest owed, the interest owed otherwise.
pub open spec fn spec_interest_portion(amount: u64, interest: int) -> int {
    if amount <= interest {
        amount as int
    } else {
        interest
    }
}

/// The pool after a repayment: the principal portion returns to the
/// available liquidity, the interest portion accrues to the pool's
/// cumulative interest, `borrowed_delta` leaves the borrowed total, and
/// a full payoff retires one active loan.
pub open spec fn spec_repay_pool(
    p: LendingPool,
    ip: int,
    pp: int,
    borrowed_delta: int,
    full: bool,
) -> LendingPool {
    LendingPool {
        available_liquidity: (p.available_liquidity + pp) as u64,
        cumalative_interest: (p.cumalative_interest + ip) as u64,
        total_borrowed: (p.total_borrowed - borrowed_delta) as u64,
        active_loan_count: if full {
            if p.active_loan_count > 0 {
                (p.active_loan_count - 1) as u32
            } else {
                0u32
            }
        } else {
            p.active_loan_count
        },
        ..p
    }
}

/// The lender's position after a repayment: `principal_back` moves from
/// lent back to available and the interest portion is credited.
pub open spec fn spec_repay_lender(a: LenderAccount, ip: int, principal_back: int) -> LenderAccount {
    LenderAccount {
        lent_amount: (a.lent_amount - principal_back) as u64,
        available_amount: (a.available_amount + principal_back) as u64,
        interest_earned: (a.interest_earned + ip) as u64,
        ..a
    }
}

/// The first refusal, if any, that a repayment runs into.
pub open spec fn spec_repay_error(
    loan: Loan,
    pool: LendingPool,
    lender_account: LenderAccount,
    caller: [u8; 32],
    repayment_commitment: [u8; 32],
    repayment_nullifier: [u8; 32],
    amount: u64,
    secret: [u8; 32],
    now: i64,
) -> Option<LoanManagerError> {
    let sum = loan.principal_range.0 + loan.principal_range.1;
    let est = sum / 2;
    let elapsed = now - loan.start_time;
    let interest = spec_interest_int(est, loan.interest_rate as int, elapsed);
    let owed = est + interest;
    let ip = spec_interest_portion(amount, interest);
    let pp = amount - ip;
    if loan.borrower@ != caller@ {
        Some(LoanManagerError::UnauthorizedBorrower)
    } else if !spec_is_outstanding(loan.status) {
        Some(LoanManagerError::InvalidLoanStatus)
    } else if !spec_commitment_matches(repayment_commitment@, secret@, amount) {
        Some(LoanManagerError::InvalidCommitment)
    } else if spec_nullifier_used(loan.used_nullifier@, repayment_nullifier@) {
        Some(LoanManagerError::NullifierAlreadyUsed)
    } else if sum > u64::MAX {
        Some(LoanManagerError::ArithmeticOverflow)
    } else if elapsed > i64::MAX || elapsed < i64::MIN {
        Some(LoanManagerError::ArithmeticUnderflow)
    } else if !spec_interest_computable(est as u64, loan.interest_rate, elapsed as i64) {
        Some(LoanManagerError::ArithmeticOverflow)
    } else if owed > u64::MAX {
        Some(LoanManagerError::ArithmeticOverflow)
    } else if amount > owed {
        Some(LoanManagerError::RepaymentExceedsBalance)
    } else if loan.used_nullifier@.len() + 1 > MAX_USED_NULLIFIERS {
        Some(LoanManagerError::NullifierListFull)
    } else if pool.available_liquidity + pp > u64::MAX {
        Some(LoanManagerError::ArithmeticOverflow)
    } else if pool.cumalative_interest + ip > u64::MAX {
        Some(LoanManagerError::ArithmeticOverflow)
    } else if amount == owed {
        if spec_required_collateral(est as u64, loan.required_collateral_ratio) > u64::MAX {
            Some(LoanManagerError::ArithmeticOverflow)
        } else if lender_account.lent_amount < est {
            Some(LoanManagerError::ArithmeticUnderflow)
        } else if lender_account.available_amount + est > u64::MAX {
            Some(LoanManagerError::ArithmeticOverflow)
        } else if lender_account.interest_earned + ip > u64::MAX {
            Some(LoanManagerError::ArithmeticOverflow)
        } else if pool.total_borrowed < est {
            Some(LoanManagerError::ArithmeticUnderflow)
        } else {
            None
        }
    } else {
        if loan.total_repaid + amount > u64::MAX {
            Some(LoanManagerError::ArithmeticOverflow)
        } else if lender_account.lent_amount < pp {
            Some(LoanManagerError::ArithmeticUnderflow)
        } else if lender_account.available_amount + pp > u64::MAX {
            Some(LoanManagerError::ArithmeticOverflow)
        } else if lender_account.interest_earned + ip > u64::MAX {
            Some(LoanManagerError::ArithmeticOverflow)
        } else if pool.total_borrowed < pp {
            Some(LoanManagerError::ArithmeticUnderflow)
        } else if (loan.total_repaid + amount) * 100 / owed > u16::MAX {
            Some(LoanManagerError::ArithmeticOverflow)
        } else {
            None
        }
    }
}

/// Repay an outstanding loan, in full or in part. The borrower reveals
/// the repayment commitment's secret and amount; the nullifier must be
/// fresh. Interest is accrued on the midpoint of the declared range — the
/// principal proxy while the true amount stays hidden. A payment above
/// the total owed is refused. On a full payoff the loan is `Repaid` and
/// the collateral to release is returned; otherwise the loan is
/// `PartiallyRepaid` and keeps accumulating `total_repaid`.
pub fn repay_loan(
    loan: &mut Loan,
    pool: &mut LendingPool,
    lender_account: &mut LenderAccount,
    caller: [u8; 32],
    repayment_commitment: [u8; 32],
    repayment_nullifier: [u8; 32],
    actual_repayment_amount: u64,
    repayment_secret: [u8; 32],
    now: i64,
) -> (r: Result<RepaymentOutcome, LoanManagerError>)
    ensures
        r is Ok <==> spec_repay_error(
            *old(loan),
            *old(pool),
            *old(lender_account),
            caller,
            repayment_commitment,
            repayment_nullifier,
            actual_repayment_amount,
            repayment_secret,
            now,
        ) is None,
        r matches Err(e) ==> Some(e) == spec_repay_error(
            *old(loan),
            *old(pool),
            *old(lender_account),
            caller,
            repayment_commitment,
            repayment_nullifier,
            actual_repayment_amount,
            repayment_secret,
            now,
        ) && *final(loan) == *old(loan) && *final(pool) == *old(pool) && *final(lender_account)
            == *old(lender_account),
        r matches Ok(outcome) ==> ({
            let sum = old(loan).principal_range.0 + old(loan).principal_range.1;
            let est = sum / 2;
            let elapsed = now - old(loan).start_time;
            let interest = spec_interest_int(est, old(loan).interest_rate as int, elapsed);
            let owed = est + interest;
            let ip = spec_interest_portion(actual_repayment_amount, interest);
            let pp = actual_repayment_amount - ip;
            let full = actual_repayment_amount == owed;
            &&& final(loan).used_nullifier@ == old(loan).used_nullifier@.push(
                repayment_nullifier,
            )
            &&& spec_nullifier_used(final(loan).used_nullifier@, repayment_nullifier@)
            &&& final(loan).repaid_commitment == (PrivateAmount {
                commitment: repayment_commitment,
                nullifier: repayment_nullifier,
                amount_range_proof: None,
            })
            &&& *final(pool) == spec_repay_pool(
                *old(pool),
                ip,
                pp,
                if full {
                    est
                } else {
                    pp
                },
                full,
            )
            &&& *final(lender_account) == spec_repay_lender(
                *old(lender_account),
                ip,
                if full {
                    est
                } else {
                    pp
                },
            )
            &&& (full ==> {
                &&& outcome == (RepaymentOutcome::Full {
                    collateral_released: spec_required_collateral(
                        est as u64,
                        old(loan).required_collateral_ratio,
                    ) as u64,
                })
                &&& *final(loan) == (Loan {
                    status: LoanStatus::Repaid,
                    repaid_commitment: final(loan).repaid_commitment,
                    used_nullifier: final(loan).used_nullifier,
                    ..*old(loan)
                })
            })
            &&& (!full ==> {
                &&& outcome == (RepaymentOutcome::Partial {
                    remaining_balance: (owed - actual_repayment_amount) as u64,
                    repayment_percentage: ((old(loan).total_repaid + actual_repayment_amount) * 100
                        / owed) as u16,
                })
                &&& *final(loan) == (Loan {
                    status: LoanStatus::PartiallyRepaid,
                    total_repaid: (old(loan).total_repaid + actual_repayment_amount) as u64,
                    repaid_commitment: final(loan).repaid_commitment,
                    used_nullifier: final(loan).used_nullifier,
                    ..*old(loan)
                })
            })
            &&& (old(loan).wf() ==> final(loan).wf())
        }),
        r is Ok && old(pool).balanced() ==> final(pool).balanced(),
        r is Ok && old(lender_account).balanced() ==> final(lender_account).balanced(),
{
    if !bytes32_eq(&loan.borrower, &caller) {
        return Err(LoanManagerError::UnauthorizedBorrower);
    }
    if !(loan.status == LoanStatus::Active || loan.status == LoanStatus::PartiallyRepaid) {
        return Err(LoanManagerError::InvalidLoanStatus);
    }
    let repayment_valid = match verify_privacy_commitment(
        repayment_commitment,
        repayment_secret,
        actual_repayment_amount,
    ) {
        Ok(v) => v,
        Err(e) => {
            return Err(e);
        },
    };
    if !repayment_valid {
        return Err(LoanManagerError::InvalidCommitment);
    }
    match verify_nullifier_unused(&repayment_nullifier, &loan.used_nullifier) {
        Ok(_) => {},
        Err(e) => {
            return Err(e);
        },
    }
    let range_sum = match loan.principal_range.0.checked_add(loan.principal_range.1) {
        Some(v) => v,
        None => {
            return Err(LoanManagerError::ArithmeticOverflow);
        },
    };
    let estimated_principal: u64 = range_sum / 2;
    let time_elapsed: i64 = match now.checked_sub(loan.start_time) {
        Some(v) => v,
        None => {
            return Err(LoanManagerError::ArithmeticUnderflow);
        },
    };
    let interest_accrued: u64 = match calculate_interest(
        estimated_principal,
        loan.interest_rate,
        time_elapsed,
    ) {
        Ok(v) => v,
        Err(e) => {
            return Err(e);
        },
    };
    let total_owed: u64 = match estimated_principal.checked_add(interest_accrued) {
        Some(v) => v,
        None => {
            return Err(LoanManagerError::ArithmeticOverflow);
        },
    };
    if actual_repayment_amount > total_owed {
        return Err(LoanManagerError::RepaymentExceedsBalance);
    }
    if loan.used_nullifier.len() > MAX_USED_NULLIFIERS - 1 {
        return Err(LoanManagerError::NullifierListFull);
    }
    let interest_portion: u64 = if actual_repayment_amount <= interest_accrued {
        actual_repayment_amount
    } else {
        interest_accrued
    };
    let principal_portion: u64 = actual_repayment_amount - interest_portion;
    let new_available = match pool.available_liquidity.checked_add(principal_portion) {
        Some(v) => v,
        None => {
            return Err(LoanManagerError::ArithmeticOverflow);
        },
    };
    let new_cumulative = match pool.cumalative_interest.checked_add(interest_portion) {
        Some(v) => v,
        None => {
            return Err(LoanManagerError::ArithmeticOverflow);
        },
    };
    if actual_repayment_amount == total_owed {
        let collateral_released = match calculate_required_collateral(
            estimated_principal,
            loan.required_collateral_ratio,
        ) {
            Ok(v) => v,
            Err(e) => {
                return Err(e);
            },
        };
        let new_lent = match lender_account.lent_amount.checked_sub(estimated_principal) {
            Some(v) => v,
            None => {
                return Err(LoanManagerError::ArithmeticUnderflow);
            },
        };
        let new_lender_available = match lender_account.available_amount.checked_add(
            estimated_principal,
        ) {
            Some(v) => v,
            None => {
                return Err(LoanManagerError::ArithmeticOverflow);
            },
        };
        let new_earned = match lender_account.interest_earned.checked_add(interest_portion) {
            Some(v) => v,
            None => {
                return Err(LoanManagerError::ArithmeticOverflow);
            },
        };
        let new_borrowed = match pool.total_borrowed.checked_sub(estimated_principal) {
            Some(v) => v,
            None => {
                return Err(LoanManagerError::ArithmeticUnderflow);
            },
        };
        loan.used_nullifier.push(repayment_nullifier);
        loan.repaid_commitment = PrivateAmount::new(repayment_commitment, repayment_nullifier);
        loan.status = LoanStatus::Repaid;
        pool.available_liquidity = new_available;
        pool.cumalative_interest = new_cumulative;
        pool.total_borrowed = new_borrowed;
        pool.active_loan_count = pool.active_loan_count.saturating_sub(1);
        lender_account.lent_amount = new_lent;
        lender_account.available_amount = new_lender_available;
        lender_account.interest_earned = new_earned;
        proof {
            let l = loan.used_nullifier@;
            assert(l[l.len() - 1] == repayment_nullifier);
        }
        Ok(RepaymentOutcome::Full { collateral_released })
    } else {
        let new_total_repaid = match loan.total_repaid.checked_add(actual_repayment_amount) {
            Some(v) => v,
            None => {
                return Err(LoanManagerError::ArithmeticOverflow);
            },
        };
        let new_lent = match lender_account.lent_amount.checked_sub(principal_portion) {
            Some(v) => v,
            None => {
                return Err(LoanManagerError::ArithmeticUnderflow);
            },
        };
        let new_lender_available = match lender_account.available_amount.checked_add(
            principal_portion,
        ) {
            Some(v) => v,
            None => {
                return Err(LoanManagerError::ArithmeticOverflow);
            },
        };
        let new_earned = match lender_account.interest_earned.checked_add(interest_portion) {
            Some(v) => v,
            None => {
                return Err(LoanManagerError::ArithmeticOverflow);
            },
        };
        let new_borrowed = match pool.total_borrowed.checked_sub(principal_portion) {
            Some(v) => v,
            None => {
                return Err(LoanManagerError::ArithmeticUnderflow);
            },
        };
        let percentage_wide: u128 = (new_total_repaid as u128) * 100 / (total_owed as u128);
        if percentage_wide > u16::MAX as u128 {
            return Err(LoanManagerError::ArithmeticOverflow);
        }
        let repayment_percentage: u16 = percentage_wide as u16;
        let remaining_balance: u64 = total_owed - actual_repayment_amount;
        loan.used_nullifier.push(repayment_nullifier);
        loan.repaid_commitment = PrivateAmount::new(repayment_commitment, repayment_nullifier);
        loan.status = LoanStatus::PartiallyRepaid;
        loan.total_repaid = new_total_repaid;
        pool.available_liquidity = new_available;
        pool.cumalative_interest = new_cumulative;
        pool.total_borrowed = new_borrowed;
        lender_account.lent_amount = new_lent;
        lender_account.available_amount = new_lender_available;
        lender_account.interest_earned = new_earned;
        proof {
            let l = loan.used_nullifier@;
            assert(l[l.len() - 1] == repayment_nullifier);
        }
        Ok(RepaymentOutcome::Partial { remaining_balance, repayment_percentage })
    }
}

/// A health factor at or below the liquidation band always forces the
/// loan into `Defaulted` on the next health update.
pub proof fn lemma_critical_health_forces_default(prev: LoanStatus, hf: u16)
    requires
        hf <= HEALTH_FACTOR_LIQUIDATION,
    ensures
        spec_health_status(prev, hf) == LoanStatus::Defaulted,
{
}

/// `Defaulted` is terminal: it passes no operation's status
/// precondition, so no operation transitions a defaulted loan — each one
/// refuses it and leaves the record unchanged. The same holds of
/// `Repaid` and `Liquidated`.
pub proof fn lemma_defaulted_is_terminal()
    ensures
        !spec_can_approve(LoanStatus::Defaulted),
        !spec_can_disburse(LoanStatus::Defaulted),
        !spec_is_outstanding(LoanStatus::Defaulted),
        !spec_can_approve(LoanStatus::Repaid),
        !spec_can_disburse(LoanStatus::Repaid),
        !spec_is_outstanding(LoanStatus::Repaid),
        !spec_can_approve(LoanStatus::Liquidated),
        !spec_can_disburse(LoanStatus::Liquidated),
        !spec_is_outstanding(LoanStatus::Liquidated),
{
}

/// An actual principal outside the declared range never disburses: the
/// cascade refuses it, and when every earlier check passes it does so
/// with the commitment error.
pub proof fn lemma_disburse_out_of_range_refused(
    loan: Loan,
    pool: LendingPool,
    lender_account: LenderAccount,
    caller: [u8; 32],
    actual_principal: u64,
    actual_collateral: u64,
    principal_secret: [u8; 32],
    collateral_secret: [u8; 32],
    now: i64,
)
    requires
        !(loan.principal_range.0 <= actual_principal && actual_principal
            <= loan.principal_range.1),
    ensures
        spec_disburse_error(
            loan,
            pool,
            lender_account,
            caller,
            actual_principal,
            actual_collateral,
            principal_secret,
            collateral_secret,
            now,
        ) is Some,
{
}

/// Once a nullifier is recorded on a loan, a repayment presenting it
/// never succeeds; when every earlier check passes, it fails with the
/// double-spend error.
pub proof fn lemma_used_nullifier_refused_on_repay(
    loan: Loan,
    pool: LendingPool,
    lender_account: LenderAccount,
    caller: [u8; 32],
    repayment_commitment: [u8; 32],
    repayment_nullifier: [u8; 32],
    amount: u64,
    secret: [u8; 32],
    now: i64,
)
    requires
        spec_nullifier_used(loan.used_nullifier@, repayment_nullifier@),
    ensures
        spec_repay_error(
            loan,
            pool,
            lender_account,
            caller,
            repayment_commitment,
            repayment_nullifier,
            amount,
            secret,
            now,
        ) is Some,
        loan.borrower@ == caller@ && spec_is_outstanding(loan.status) && spec_commitment_matches(
            repayment_commitment@,
            secret@,
            amount,
        ) ==> spec_repay_error(
            loan,
            pool,
            lender_account,
            caller,
            repayment_commitment,
            repayment_nullifier,
            amount,
            secret,
            now,
        ) == Some(LoanManagerError::NullifierAlreadyUsed),
{
}

/// Once a nullifier is recorded on a loan, a collateral top-up
/// presenting it never succeeds; when every earlier check passes, it
/// fails with the double-spend error.
pub proof fn lemma_used_nullifier_refused_on_topup(
    loan: Loan,
    caller: [u8; 32],
    additional_commitment: [u8; 32],
    additional_nullifier: [u8; 32],
    amount: u64,
    secret: [u8; 32],
)
    requires
        spec_nullifier_used(loan.used_nullifier@, additional_nullifier@),
    ensures
        spec_add_collateral_error(
            loan,
            caller,
            additional_commitment,
            additional_nullifier,
            amount,
            secret,
        ) is Some,
        loan.borrower@ == caller@ && spec_is_outstanding(loan.status) && spec_commitment_matches(
            additional_commitment@,
            secret@,
            amount,
        ) ==> spec_add_collateral_error(
            loan,
            caller,
            additional_commitment,
            additional_nullifier,
            amount,
            secret,
        ) == Some(LoanManagerError::NullifierAlreadyUsed),
{
}

/// Once either of a loan's nullifiers is recorded, disbursement never
/// succeeds; when every earlier check passes, it fails with the
/// double-spend error.
pub proof fn lemma_used_nullifier_refused_on_disburse(
    loan: Loan,
    pool: LendingPool,
    lender_account: LenderAccount,
    caller: [u8; 32],
    actual_principal: u64,
    actual_collateral: u64,
    principal_secret: [u8; 32],
    collateral_secret: [u8; 32],
    now: i64,
)
    requires
        spec_nullifier_used(loan.used_nullifier@, loan.principal_commitment.nullifier@)
            || spec_nullifier_used(loan.used_nullifier@, loan.collateral_commitment.nullifier@),
    ensures
        spec_disburse_error(
            loan,
            pool,
            lender_account,
            caller,
            actual_principal,
            actual_collateral,
            principal_secret,
            collateral_secret,
            now,
        ) is Some,
        loan.borrower@ == caller@ && spec_can_disburse(loan.status) && spec_commitment_matches(
            loan.principal_commitment.commitment@,
            principal_secret@,
            actual_principal,
        ) && spec_commitment_matches(
            loan.collateral_commitment.commitment@,
            collateral_secret@,
            actual_collateral,
        ) && loan.principal_range.0 <= actual_principal && actual_principal
            <= loan.principal_range.1 ==> spec_disburse_error(
            loan,
            pool,
            lender_account,
            caller,
            actual_principal,
            actual_collateral,
            principal_secret,
            collateral_secret,
            now,
        ) == Some(LoanManagerError::NullifierAlreadyUsed),
{
}

/// A payment above the total owed is always refused with the
/// repayment-exceeds-balance error: whenever the checks ahead of the
/// amount validation pass and the amount exceeds the estimated
/// principal plus the accrued interest, that is the cascade's refusal,
/// and the operation leaves every entity unchanged.
pub proof fn lemma_overpayment_refused(
    loan: Loan,
    pool: LendingPool,
    lender_account: LenderAccount,
    caller: [u8; 32],
    repayment_commitment: [u8; 32],
    repayment_nullifier: [u8; 32],
    amount: u64,
    secret: [u8; 32],
    now: i64,
)
    requires
        loan.borrower@ == caller@,
        spec_is_outstanding(loan.status),
        spec_commitment_matches(repayment_commitment@, secret@, amount),
        !spec_nullifier_used(loan.used_nullifier@, repayment_nullifier@),
        loan.principal_range.0 + loan.principal_range.1 <= u64::MAX,
        i64::MIN <= now - loan.start_time <= i64::MAX,
        spec_interest_computable(
            ((loan.principal_range.0 + loan.principal_range.1) / 2) as u64,
            loan.interest_rate,
            (now - loan.start_time) as i64,
        ),
        ({
            let est = (loan.principal_range.0 + loan.principal_range.1) / 2;
            let owed = est + spec_interest_int(
                est,
                loan.interest_rate as int,
                now - loan.start_time,
            );
            owed <= u64::MAX && amount > owed
        }),
    ensures
        spec_repay_error(
            loan,
            pool,
            lender_account,
            caller,
            repayment_commitment,
            repayment_nullifier,
            amount,
            secret,
            now,
        ) == Some(LoanManagerError::RepaymentExceedsBalance),
{
}

/// A loan that is not outstanding — in particular one in a terminal
/// status such as `Defaulted` — refuses repayment with the status
/// error, whoever presents whatever payment.
pub proof fn lemma_nonoutstanding_loan_refuses_repay(
    loan: Loan,
    pool: LendingPool,
    lender_account: LenderAccount,
    caller: [u8; 32],
    repayment_commitment: [u8; 32],
    repayment_nullifier: [u8; 32],
    amount: u64,
    secret: [u8; 32],
    now: i64,
)
    requires
        loan.borrower@ == caller@,
        !spec_is_outstanding(loan.status),
    ensures
        spec_repay_error(
            loan,
            pool,
            lender_account,
            caller,
            repayment_commitment,
            repayment_nullifier,
            amount,
            secret,
            now,
        ) == Some(LoanManagerError::InvalidLoanStatus),
{
}

/// A disbursement followed by a full repayment of the same principal
/// returns the pool's available liquidity exactly to its pre-disbursement
/// value, while the interest collected accrues to the pool's cumulative
/// interest; the borrowed total and the active-loan count are restored
/// too. (A full repayment services the whole interest owed, so its
/// principal portion equals the estimated principal; the pools balance
/// exactly when the disbursed amount equals that estimate.)
pub proof fn lemma_disburse_then_full_repay_restores_liquidity(
    pool: LendingPool,
    principal: u64,
    interest: u64,
)
    requires
        pool.available_liquidity >= principal,
        pool.total_borrowed + principal <= u64::MAX,
        pool.active_loan_count + 1 <= u32::MAX,
        pool.cumalative_interest + interest <= u64::MAX,
    ensures
        ({
            let repaid = spec_repay_pool(
                spec_disburse_pool(pool, principal),
                interest as int,
                principal as int,
                principal as int,
                true,
            );
            &&& repaid.available_liquidity == pool.available_liquidity
            &&& repaid.cumalative_interest == pool.cumalative_interest + interest
            &&& repaid.total_borrowed == pool.total_borrowed
            &&& repaid.active_loan_count == pool.active_loan_count
        }),
{
}

} // verus!
