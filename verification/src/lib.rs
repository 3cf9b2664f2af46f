//! Lifecycle engine of a privacy-preserving collateralized lending protocol.
//!
//! Loan requests, lender matching, disbursement, repayment, collateral
//! top-up and health-factor-driven default classification, with principal
//! and collateral amounts hidden behind hash commitments and protected
//! from reuse by nullifiers.

pub mod commitment;
pub mod constants;
pub mod credit;
pub mod errors;
pub mod interest;
pub mod lifecycle;
pub mod state;
pub mod tier;
