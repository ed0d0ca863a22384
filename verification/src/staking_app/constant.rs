//! The terms of the staking service.

use vstd::prelude::*;

verus! {

/// Yearly interest, in percent of the staked amount.
pub const STAKING_APR: u64 = 10;

/// Seconds in a year of 365 days.
pub const SECOND_PER_YEAR: u64 = 31_536_000;

} // verus!
