use private_lending::commitment::compute_commitment;
use private_lending::constants::SECONDS_PER_YEAR;
use private_lending::credit::NoirCreditProof;
use private_lending::errors::LoanManagerError;
use private_lending::lifecycle::{
    add_collateral, approve_loan, disburse_loan, repay_loan, request_loan, update_health_factor,
    RepaymentOutcome,
};
use private_lending::state::{LenderAccount, LendingPool, Loan, LoanCounter, LoanStatus};

const BORROWER: [u8; 32] = [11u8; 32];
const LENDER: [u8; 32] = [22u8; 32];
const POOL: [u8; 32] = [33u8; 32];
const MINT: [u8; 32] = [44u8; 32];
const NOW: i64 = 1_700_000_000;

const PRINCIPAL_SECRET: [u8; 32] = [101u8; 32];
const COLLATERAL_SECRET: [u8; 32] = [102u8; 32];
const REPAY_SECRET: [u8; 32] = [103u8; 32];
const TOPUP_SECRET: [u8; 32] = [104u8; 32];

const ACTUAL_PRINCIPAL: u64 = 150_000_000;
const ACTUAL_COLLATERAL: u64 = 150_000_000;

fn proof_with_tier_head(threshold: u16, timestamp: i64) -> NoirCreditProof {
    // The commitment head carries the tier indicator 850 little-endian:
    // the very-good band, 7500 bps.
    let mut score_commitment = [0u8; 32];
    score_commitment[0] = 0x52;
    score_commitment[1] = 0x03;
    NoirCreditProof {
        proof: vec![1u8; 64],
        public_inputs: vec![(threshold & 0xff) as u8, (threshold >> 8) as u8],
        score_commitment,
        timestamp,
    }
}

fn fresh_counter() -> LoanCounter {
    LoanCounter { next_loan_id: 0, total_loans: 0, active_loans: 0 }
}

fn fresh_pool() -> LendingPool {
    LendingPool {
        authority: [1u8; 32],
        token_mint: [2u8; 32],
        pool_token_account: [3u8; 32],
        pool_name: String::from("main"),
        total_deposits: 1_000_000_000,
        available_liquidity: 1_000_000_000,
        total_borrowed: 0,
        cumalative_interest: 0,
        active_loan_count: 0,
        total_loan_count: 0,
        paused: false,
        created_at: 0,
    }
}

fn fresh_lender() -> LenderAccount {
    LenderAccount {
        lender: LENDER,
        pool: POOL,
        deposited_amount: 200_000_000,
        available_amount: 200_000_000,
        lent_amount: 0,
        interest_earned: 0,
        total_withdrawal: 0,
        last_deposited_time: 0,
    }
}

/// A pending loan over the range 100-200 tokens (six decimals), 30 days,
/// threshold 850.
fn pending_loan(counter: &mut LoanCounter) -> Loan {
    request_loan(
        counter,
        BORROWER,
        POOL,
        MINT,
        compute_commitment(ACTUAL_PRINCIPAL, &PRINCIPAL_SECRET),
        [61u8; 32],
        (100_000_000, 200_000_000),
        compute_commitment(ACTUAL_COLLATERAL, &COLLATERAL_SECRET),
        [62u8; 32],
        (150_000_000, 300_000_000),
        30,
        &proof_with_tier_head(850, NOW),
        850,
        NOW,
    )
    .expect("request should succeed")
}

fn active_loan(counter: &mut LoanCounter, pool: &mut LendingPool, lender: &mut LenderAccount) -> Loan {
    let mut loan = pending_loan(counter);
    approve_loan(&mut loan, pool, lender, LENDER).expect("approve should succeed");
    disburse_loan(
        &mut loan,
        pool,
        lender,
        BORROWER,
        ACTUAL_PRINCIPAL,
        ACTUAL_COLLATERAL,
        PRINCIPAL_SECRET,
        COLLATERAL_SECRET,
        NOW,
    )
    .expect("disburse should succeed");
    loan
}

#[test]
fn full_lifecycle_request_approve_disburse_repay() {
    let mut counter = fresh_counter();
    let mut pool = fresh_pool();
    let mut lender = fresh_lender();

    let mut loan = pending_loan(&mut counter);
    assert_eq!(loan.loan_id, 0);
    assert_eq!(loan.status, LoanStatus::Pending);
    assert_eq!(loan.required_collateral_ratio, 7500);
    assert_eq!(loan.interest_rate, 800);
    assert_eq!(loan.duration, 30 * 86_400);
    assert_eq!(counter.next_loan_id, 1);
    assert_eq!(counter.total_loans, 1);

    approve_loan(&mut loan, &pool, &lender, LENDER).expect("approve should succeed");
    assert_eq!(loan.status, LoanStatus::Approved);
    assert_eq!(loan.lender, LENDER);

    let before = pool.available_liquidity;
    disburse_loan(
        &mut loan,
        &mut pool,
        &mut lender,
        BORROWER,
        ACTUAL_PRINCIPAL,
        ACTUAL_COLLATERAL,
        PRINCIPAL_SECRET,
        COLLATERAL_SECRET,
        NOW,
    )
    .expect("disburse should succeed");
    assert_eq!(loan.status, LoanStatus::Active);
    assert_eq!(loan.start_time, NOW);
    assert_eq!(loan.end_time, NOW + 30 * 86_400);
    assert_eq!(pool.available_liquidity, before - 150_000_000);
    assert_eq!(pool.total_borrowed, 150_000_000);
    assert_eq!(pool.active_loan_count, 1);
    assert_eq!(lender.available_amount, 50_000_000);
    assert_eq!(lender.lent_amount, 150_000_000);
    assert_eq!(loan.used_nullifier.len(), 2);

    // Full repayment immediately: the midpoint estimate is 150, zero
    // interest has accrued, so 150 pays the loan off.
    let outcome = repay_loan(
        &mut loan,
        &mut pool,
        &mut lender,
        BORROWER,
        compute_commitment(150_000_000, &REPAY_SECRET),
        [63u8; 32],
        150_000_000,
        REPAY_SECRET,
        NOW,
    )
    .expect("repay should succeed");
    assert_eq!(loan.status, LoanStatus::Repaid);
    // Collateral released at the estimated principal and the 7500 bps
    // ratio: 150 * 0.75 = 112.5 tokens.
    assert_eq!(
        outcome,
        RepaymentOutcome::Full { collateral_released: 112_500_000 }
    );
    assert_eq!(pool.available_liquidity, 1_000_000_000);
    assert_eq!(pool.total_borrowed, 0);
    assert_eq!(pool.active_loan_count, 0);
    assert_eq!(lender.available_amount, 200_000_000);
    assert_eq!(lender.lent_amount, 0);
}

#[test]
fn liquidity_returns_to_pre_disburse_value_plus_interest() {
    let mut counter = fresh_counter();
    let mut pool = fresh_pool();
    let mut lender = fresh_lender();
    let mut loan = active_loan(&mut counter, &mut pool, &mut lender);

    let available_before_repay = pool.available_liquidity;
    assert_eq!(available_before_repay, 850_000_000);

    // One year later: interest is 150 * 8% = 12 tokens; the total owed
    // is 162 and paying it in full retires the loan.
    let later = NOW + SECONDS_PER_YEAR;
    let outcome = repay_loan(
        &mut loan,
        &mut pool,
        &mut lender,
        BORROWER,
        compute_commitment(162_000_000, &REPAY_SECRET),
        [63u8; 32],
        162_000_000,
        REPAY_SECRET,
        later,
    )
    .expect("repay should succeed");
    assert!(matches!(outcome, RepaymentOutcome::Full { .. }));
    // Available liquidity is back to its pre-disbursement value and the
    // collected interest sits in the pool's interest bucket.
    assert_eq!(pool.available_liquidity, 1_000_000_000);
    assert_eq!(pool.cumalative_interest, 12_000_000);
    assert_eq!(lender.interest_earned, 12_000_000);
}

#[test]
fn partial_repayment_keeps_the_loan_outstanding() {
    let mut counter = fresh_counter();
    let mut pool = fresh_pool();
    let mut lender = fresh_lender();
    let mut loan = active_loan(&mut counter, &mut pool, &mut lender);

    let outcome = repay_loan(
        &mut loan,
        &mut pool,
        &mut lender,
        BORROWER,
        compute_commitment(50_000_000, &REPAY_SECRET),
        [63u8; 32],
        50_000_000,
        REPAY_SECRET,
        NOW,
    )
    .expect("repay should succeed");
    assert_eq!(loan.status, LoanStatus::PartiallyRepaid);
    assert_eq!(loan.total_repaid, 50_000_000);
    assert_eq!(
        outcome,
        RepaymentOutcome::Partial { remaining_balance: 100_000_000, repayment_percentage: 33 }
    );
    assert_eq!(pool.available_liquidity, 900_000_000);
    assert_eq!(pool.total_borrowed, 100_000_000);
    assert_eq!(lender.lent_amount, 100_000_000);
    assert_eq!(lender.available_amount, 100_000_000);
}

#[test]
fn overpayment_is_rejected_and_changes_nothing() {
    let mut counter = fresh_counter();
    let mut pool = fresh_pool();
    let mut lender = fresh_lender();
    let mut loan = active_loan(&mut counter, &mut pool, &mut lender);

    let available_before = pool.available_liquidity;
    // Zero elapsed time: the total owed is exactly the 150 estimate.
    let r = repay_loan(
        &mut loan,
        &mut pool,
        &mut lender,
        BORROWER,
        compute_commitment(150_000_001, &REPAY_SECRET),
        [63u8; 32],
        150_000_001,
        REPAY_SECRET,
        NOW,
    );
    assert_eq!(r, Err(LoanManagerError::RepaymentExceedsBalance));
    assert_eq!(loan.status, LoanStatus::Active);
    assert_eq!(loan.total_repaid, 0);
    assert_eq!(pool.available_liquidity, available_before);
}

#[test]
fn reused_nullifier_is_a_double_spend() {
    let mut counter = fresh_counter();
    let mut pool = fresh_pool();
    let mut lender = fresh_lender();
    let mut loan = active_loan(&mut counter, &mut pool, &mut lender);

    // The principal nullifier was marked used at disbursement;
    // presenting it again for the repayment is refused.
    let used = loan.principal_commitment.nullifier;
    let r = repay_loan(
        &mut loan,
        &mut pool,
        &mut lender,
        BORROWER,
        compute_commitment(10_000_000, &REPAY_SECRET),
        used,
        10_000_000,
        REPAY_SECRET,
        NOW,
    );
    assert_eq!(r, Err(LoanManagerError::NullifierAlreadyUsed));
    assert_eq!(loan.status, LoanStatus::Active);

    // The same nullifier is refused for a collateral top-up too.
    let r = add_collateral(
        &mut loan,
        BORROWER,
        compute_commitment(10_000_000, &TOPUP_SECRET),
        used,
        10_000_000,
        TOPUP_SECRET,
    );
    assert_eq!(r, Err(LoanManagerError::NullifierAlreadyUsed));
}

#[test]
fn repaying_twice_with_one_nullifier_is_refused() {
    let mut counter = fresh_counter();
    let mut pool = fresh_pool();
    let mut lender = fresh_lender();
    let mut loan = active_loan(&mut counter, &mut pool, &mut lender);

    let nullifier = [63u8; 32];
    repay_loan(
        &mut loan,
        &mut pool,
        &mut lender,
        BORROWER,
        compute_commitment(10_000_000, &REPAY_SECRET),
        nullifier,
        10_000_000,
        REPAY_SECRET,
        NOW,
    )
    .expect("first repayment should succeed");
    let r = repay_loan(
        &mut loan,
        &mut pool,
        &mut lender,
        BORROWER,
        compute_commitment(10_000_000, &REPAY_SECRET),
        nullifier,
        10_000_000,
        REPAY_SECRET,
        NOW,
    );
    assert_eq!(r, Err(LoanManagerError::NullifierAlreadyUsed));
}

#[test]
fn disbursed_principal_must_lie_in_the_declared_range() {
    let mut counter = fresh_counter();
    let mut pool = fresh_pool();
    let mut lender = fresh_lender();
    let mut loan = pending_loan(&mut counter);
    approve_loan(&mut loan, &pool, &lender, LENDER).expect("approve should succeed");

    let available_before = pool.available_liquidity;
    // 250 tokens is outside the declared 100-200 range; even a
    // commitment that opens correctly does not help.
    let mut out_of_range = pending_loan(&mut fresh_counter());
    out_of_range.principal_commitment.commitment = compute_commitment(250_000_000, &PRINCIPAL_SECRET);
    out_of_range.status = LoanStatus::Approved;
    out_of_range.lender = LENDER;
    let r = disburse_loan(
        &mut out_of_range,
        &mut pool,
        &mut lender,
        BORROWER,
        250_000_000,
        ACTUAL_COLLATERAL,
        PRINCIPAL_SECRET,
        COLLATERAL_SECRET,
        NOW,
    );
    assert_eq!(r, Err(LoanManagerError::InvalidCommitment));
    assert_eq!(out_of_range.status, LoanStatus::Approved);
    assert_eq!(pool.available_liquidity, available_before);

    // A commitment that does not open to the revealed amount fails too.
    let r = disburse_loan(
        &mut loan,
        &mut pool,
        &mut lender,
        BORROWER,
        160_000_000,
        ACTUAL_COLLATERAL,
        PRINCIPAL_SECRET,
        COLLATERAL_SECRET,
        NOW,
    );
    assert_eq!(r, Err(LoanManagerError::InvalidCommitment));
    assert_eq!(pool.available_liquidity, available_before);
}

#[test]
fn critical_health_forces_default_and_default_is_terminal() {
    let mut counter = fresh_counter();
    let mut pool = fresh_pool();
    let mut lender = fresh_lender();
    let mut loan = active_loan(&mut counter, &mut pool, &mut lender);

    update_health_factor(&mut loan, 90_000_000, 90, NOW + 100).expect("update should succeed");
    assert_eq!(loan.status, LoanStatus::Defaulted);
    assert_eq!(loan.health_factor, 90);
    assert_eq!(loan.collateral_value_usd, 90_000_000);
    assert_eq!(loan.last_health_check, NOW + 100);

    // No operation leaves the defaulted state.
    let r = repay_loan(
        &mut loan,
        &mut pool,
        &mut lender,
        BORROWER,
        compute_commitment(150_000_000, &REPAY_SECRET),
        [63u8; 32],
        150_000_000,
        REPAY_SECRET,
        NOW + 200,
    );
    assert_eq!(r, Err(LoanManagerError::InvalidLoanStatus));
    assert_eq!(loan.status, LoanStatus::Defaulted);

    let r = add_collateral(
        &mut loan,
        BORROWER,
        compute_commitment(10_000_000, &TOPUP_SECRET),
        [64u8; 32],
        10_000_000,
        TOPUP_SECRET,
    );
    assert_eq!(r, Err(LoanManagerError::InvalidLoanStatus));
    assert_eq!(loan.status, LoanStatus::Defaulted);

    let r = update_health_factor(&mut loan, 200_000_000, 150, NOW + 300);
    assert_eq!(r, Err(LoanManagerError::InvalidLoanStatus));
    assert_eq!(loan.status, LoanStatus::Defaulted);

    let r = approve_loan(&mut loan, &pool, &lender, LENDER);
    assert_eq!(r, Err(LoanManagerError::InvalidLoanStatus));
    assert_eq!(loan.status, LoanStatus::Defaulted);
}

#[test]
fn health_bands_set_and_clear_the_warning() {
    let mut counter = fresh_counter();
    let mut pool = fresh_pool();
    let mut lender = fresh_lender();
    let mut loan = active_loan(&mut counter, &mut pool, &mut lender);

    update_health_factor(&mut loan, 100_000_000, 100, NOW + 1).expect("update should succeed");
    assert!(loan.warning_sent);
    assert_eq!(loan.status, LoanStatus::Active);

    update_health_factor(&mut loan, 110_000_000, 115, NOW + 2).expect("update should succeed");
    assert!(loan.warning_sent);
    assert_eq!(loan.status, LoanStatus::Active);

    update_health_factor(&mut loan, 130_000_000, 121, NOW + 3).expect("update should succeed");
    assert!(!loan.warning_sent);
    assert_eq!(loan.status, LoanStatus::Active);

    // 91 is above the liquidation band: no forced default.
    update_health_factor(&mut loan, 91_000_000, 91, NOW + 4).expect("update should succeed");
    assert_eq!(loan.status, LoanStatus::Active);
    assert!(loan.warning_sent);
}

#[test]
fn collateral_topup_recomputes_health_and_keeps_the_range() {
    let mut counter = fresh_counter();
    let mut pool = fresh_pool();
    let mut lender = fresh_lender();
    let mut loan = active_loan(&mut counter, &mut pool, &mut lender);
    loan.warning_sent = true;

    add_collateral(
        &mut loan,
        BORROWER,
        compute_commitment(50_000_000, &TOPUP_SECRET),
        [64u8; 32],
        50_000_000,
        TOPUP_SECRET,
    )
    .expect("top-up should succeed");
    // The declared range is untouched: the actual principal disbursed
    // against it stays within it.
    assert_eq!(loan.principal_range, (100_000_000, 200_000_000));
    // Estimated principal 150, estimated collateral 112.5; the new
    // value 162.5 over 112.5 gives a 1.44x health factor.
    assert_eq!(loan.health_factor, 144);
    assert!(!loan.warning_sent);
    assert_eq!(loan.used_nullifier.len(), 3);
}

#[test]
fn collateral_topup_does_not_change_what_is_owed() {
    let mut counter = fresh_counter();
    let mut pool = fresh_pool();
    let mut lender = fresh_lender();
    let mut loan = active_loan(&mut counter, &mut pool, &mut lender);

    add_collateral(
        &mut loan,
        BORROWER,
        compute_commitment(50_000_000, &TOPUP_SECRET),
        [64u8; 32],
        50_000_000,
        TOPUP_SECRET,
    )
    .expect("top-up should succeed");

    // The principal proxy still reads 150 from the unchanged range, so
    // with zero elapsed time 150 still pays the loan off in full.
    let outcome = repay_loan(
        &mut loan,
        &mut pool,
        &mut lender,
        BORROWER,
        compute_commitment(150_000_000, &REPAY_SECRET),
        [63u8; 32],
        150_000_000,
        REPAY_SECRET,
        NOW,
    )
    .expect("repay should succeed");
    assert!(matches!(outcome, RepaymentOutcome::Full { .. }));
    assert_eq!(loan.status, LoanStatus::Repaid);
}

#[test]
fn zero_topup_is_insufficient() {
    let mut counter = fresh_counter();
    let mut pool = fresh_pool();
    let mut lender = fresh_lender();
    let mut loan = active_loan(&mut counter, &mut pool, &mut lender);

    let r = add_collateral(
        &mut loan,
        BORROWER,
        compute_commitment(0, &TOPUP_SECRET),
        [64u8; 32],
        0,
        TOPUP_SECRET,
    );
    assert_eq!(r, Err(LoanManagerError::InsufficientCollateral));
}

#[test]
fn only_the_borrower_repays_or_tops_up() {
    let mut counter = fresh_counter();
    let mut pool = fresh_pool();
    let mut lender = fresh_lender();
    let mut loan = active_loan(&mut counter, &mut pool, &mut lender);

    let r = repay_loan(
        &mut loan,
        &mut pool,
        &mut lender,
        LENDER,
        compute_commitment(10_000_000, &REPAY_SECRET),
        [63u8; 32],
        10_000_000,
        REPAY_SECRET,
        NOW,
    );
    assert_eq!(r, Err(LoanManagerError::UnauthorizedBorrower));

    let r = add_collateral(
        &mut loan,
        LENDER,
        compute_commitment(10_000_000, &TOPUP_SECRET),
        [64u8; 32],
        10_000_000,
        TOPUP_SECRET,
    );
    assert_eq!(r, Err(LoanManagerError::UnauthorizedBorrower));
}

#[test]
fn approval_needs_a_pending_loan_and_liquidity() {
    let mut counter = fresh_counter();
    let pool = fresh_pool();
    let lender = fresh_lender();

    let mut loan = pending_loan(&mut counter);
    let r = approve_loan(&mut loan, &pool, &lender, [99u8; 32]);
    assert_eq!(r, Err(LoanManagerError::UnauthorizedLender));
    assert_eq!(loan.status, LoanStatus::Pending);

    let mut poor_lender = fresh_lender();
    poor_lender.available_amount = 199_999_999;
    let r = approve_loan(&mut loan, &pool, &poor_lender, LENDER);
    assert_eq!(r, Err(LoanManagerError::InsufficientPoolLiquidity));

    let mut poor_pool = fresh_pool();
    poor_pool.available_liquidity = 199_999_999;
    let r = approve_loan(&mut loan, &poor_pool, &lender, LENDER);
    assert_eq!(r, Err(LoanManagerError::InsufficientPoolLiquidity));

    approve_loan(&mut loan, &pool, &lender, LENDER).expect("approve should succeed");
    let r = approve_loan(&mut loan, &pool, &lender, LENDER);
    assert_eq!(r, Err(LoanManagerError::InvalidLoanStatus));
}

#[test]
fn request_validation_errors() {
    let mut counter = fresh_counter();
    let proof = proof_with_tier_head(850, NOW);
    let pc = compute_commitment(ACTUAL_PRINCIPAL, &PRINCIPAL_SECRET);
    let cc = compute_commitment(ACTUAL_COLLATERAL, &COLLATERAL_SECRET);

    let r = request_loan(
        &mut counter, BORROWER, POOL, MINT, pc, [61u8; 32], (99_999_999, 200_000_000), cc,
        [62u8; 32], (150_000_000, 300_000_000), 30, &proof, 850, NOW,
    );
    assert_eq!(r.err(), Some(LoanManagerError::LoanAmountTooLow));

    let r = request_loan(
        &mut counter, BORROWER, POOL, MINT, pc, [61u8; 32], (100_000_000, 1_000_000_000_001), cc,
        [62u8; 32], (150_000_000, 300_000_000), 30, &proof, 850, NOW,
    );
    assert_eq!(r.err(), Some(LoanManagerError::LoanAmountTooHigh));

    let r = request_loan(
        &mut counter, BORROWER, POOL, MINT, pc, [61u8; 32], (100_000_000, 200_000_000), cc,
        [62u8; 32], (150_000_000, 300_000_000), 0, &proof, 850, NOW,
    );
    assert_eq!(r.err(), Some(LoanManagerError::DurationTooShort));

    let r = request_loan(
        &mut counter, BORROWER, POOL, MINT, pc, [61u8; 32], (100_000_000, 200_000_000), cc,
        [62u8; 32], (150_000_000, 300_000_000), 366, &proof, 850, NOW,
    );
    assert_eq!(r.err(), Some(LoanManagerError::DurationTooLong));

    let stale = proof_with_tier_head(850, NOW - 43_201);
    let r = request_loan(
        &mut counter, BORROWER, POOL, MINT, pc, [61u8; 32], (100_000_000, 200_000_000), cc,
        [62u8; 32], (150_000_000, 300_000_000), 30, &stale, 850, NOW,
    );
    assert_eq!(r.err(), Some(LoanManagerError::CreditProofExpired));

    let r = request_loan(
        &mut counter, BORROWER, POOL, MINT, pc, [61u8; 32], (100_000_000, 200_000_000), cc,
        [62u8; 32], (150_000_000, 300_000_000), 30, &proof, 800, NOW,
    );
    assert_eq!(r.err(), Some(LoanManagerError::InvalidCreditProofSignature));

    let r = request_loan(
        &mut counter, BORROWER, POOL, MINT, [0u8; 32], [61u8; 32], (100_000_000, 200_000_000),
        cc, [62u8; 32], (150_000_000, 300_000_000), 30, &proof, 850, NOW,
    );
    assert_eq!(r.err(), Some(LoanManagerError::InvalidCommitment));

    // The minimum collateral must cover the ratio at the range maximum:
    // 200 * 0.75 = 150 tokens.
    let r = request_loan(
        &mut counter, BORROWER, POOL, MINT, pc, [61u8; 32], (100_000_000, 200_000_000), cc,
        [62u8; 32], (149_999_999, 300_000_000), 30, &proof, 850, NOW,
    );
    assert_eq!(r.err(), Some(LoanManagerError::InsufficientCollateral));

    // Nothing above consumed an id.
    assert_eq!(counter.next_loan_id, 0);
    assert_eq!(counter.total_loans, 0);
}

#[test]
fn loan_ids_are_monotonic() {
    let mut counter = fresh_counter();
    let first = pending_loan(&mut counter);
    let second = pending_loan(&mut counter);
    let third = pending_loan(&mut counter);
    assert_eq!(first.loan_id, 0);
    assert_eq!(second.loan_id, 1);
    assert_eq!(third.loan_id, 2);
    assert_eq!(counter.next_loan_id, 3);
    assert_eq!(counter.total_loans, 3);
}

#[test]
fn nullifier_list_capacity_is_enforced() {
    let mut counter = fresh_counter();
    let mut pool = fresh_pool();
    let mut lender = fresh_lender();
    let mut loan = active_loan(&mut counter, &mut pool, &mut lender);

    // Fill the list to its capacity of 10 (two were used at
    // disbursement).
    for i in 0..8u8 {
        loan.used_nullifier.push([200 + i; 32]);
    }
    assert_eq!(loan.used_nullifier.len(), 10);
    let r = repay_loan(
        &mut loan,
        &mut pool,
        &mut lender,
        BORROWER,
        compute_commitment(10_000_000, &REPAY_SECRET),
        [63u8; 32],
        10_000_000,
        REPAY_SECRET,
        NOW,
    );
    assert_eq!(r, Err(LoanManagerError::NullifierListFull));
}

#[test]
fn approval_is_a_soft_reservation() {
    // Liquidity is only checked again at disbursement: draining the
    // pool between the two operations makes the disbursement fail.
    let mut counter = fresh_counter();
    let mut pool = fresh_pool();
    let mut lender = fresh_lender();
    let mut loan = pending_loan(&mut counter);
    approve_loan(&mut loan, &pool, &lender, LENDER).expect("approve should succeed");

    pool.available_liquidity = 149_999_999;
    pool.total_borrowed = 1_000_000_000 - 149_999_999;
    let r = disburse_loan(
        &mut loan,
        &mut pool,
        &mut lender,
        BORROWER,
        ACTUAL_PRINCIPAL,
        ACTUAL_COLLATERAL,
        PRINCIPAL_SECRET,
        COLLATERAL_SECRET,
        NOW,
    );
    assert_eq!(r, Err(LoanManagerError::InsufficientPoolLiquidity));
    assert_eq!(loan.status, LoanStatus::Approved);
}

#[test]
fn terminal_loan_cannot_be_disbursed() {
    let mut counter = fresh_counter();
    let mut pool = fresh_pool();
    let mut lender = fresh_lender();
    let mut loan = active_loan(&mut counter, &mut pool, &mut lender);
    update_health_factor(&mut loan, 50_000_000, 80, NOW + 1).expect("update should succeed");
    assert_eq!(loan.status, LoanStatus::Defaulted);

    let r = disburse_loan(
        &mut loan,
        &mut pool,
        &mut lender,
        BORROWER,
        ACTUAL_PRINCIPAL,
        ACTUAL_COLLATERAL,
        PRINCIPAL_SECRET,
        COLLATERAL_SECRET,
        NOW + 2,
    );
    assert_eq!(r, Err(LoanManagerError::LoanNotApproved));
    assert_eq!(loan.status, LoanStatus::Defaulted);
}

#[test]
fn clock_regression_fails_the_repayment() {
    let mut counter = fresh_counter();
    let mut pool = fresh_pool();
    let mut lender = fresh_lender();
    let mut loan = active_loan(&mut counter, &mut pool, &mut lender);

    let r = repay_loan(
        &mut loan,
        &mut pool,
        &mut lender,
        BORROWER,
        compute_commitment(10_000_000, &REPAY_SECRET),
        [63u8; 32],
        10_000_000,
        REPAY_SECRET,
        NOW - 1,
    );
    assert_eq!(r, Err(LoanManagerError::ArithmeticOverflow));
}
