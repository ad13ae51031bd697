//! The accounting core of a reserve-backed bonding-curve token with
//! collateralised loans: pricing, fees, the loan ledger, the daily
//! liquidation sweep and the end-of-operation safety guard.

pub mod address;
pub mod book;
pub mod calendar;
pub mod dates;
pub mod eggs;
pub mod fees;
pub mod math;
pub mod mushi_program;
pub mod pricing;
pub mod sums;
