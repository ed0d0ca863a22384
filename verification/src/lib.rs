//! Ledger engine of a custodial treasury and of the staking service that it
//! invests in: the bookkeeping rules, proved with Verus.

pub mod authority;
pub mod bank_app;
pub mod identity;
pub mod staking_app;
pub mod transfer_helper;
