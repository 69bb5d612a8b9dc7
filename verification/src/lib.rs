//! State layout and contribution rules of a token fundraiser program.

pub mod address;
pub mod error;
pub mod instructions;
pub mod le;
pub mod state;

use vstd::prelude::*;

verus! {

/// Smallest target a fundraiser may set, in whole tokens.
pub const MIN_AMOUNT_TO_RAISE: u64 = 3;

/// Seconds in a day.
pub const SECONDS_TO_DAYS: i64 = 86400;

/// Share of the target that one contribution may reach, in percent.
pub const MAX_CONTRIBUTION_PERCENTAGE: u64 = 10;

/// Denominator of percentages.
pub const PERCENTAGE_SCALER: u64 = 100;

} // verus!
