//! Accounting core of a token sale with per-purchase linear vesting.
//!
//! Buyers pay in one denomination and receive an amount of the sold
//! denomination that vests block by block over the number of weeks they chose.
//! Every operation works on an explicit [`state::Ledger`] value and either
//! commits all of its effects or leaves the ledger untouched.

use vstd::prelude::*;

pub mod checks;
pub mod contract;
pub mod error;
pub mod laws;
pub mod math;
pub mod msg;
pub mod query;
pub mod report;
pub mod state;
pub mod vesting;

verus! {

/// Price of one unit of the sold asset, in payment-asset units (six decimals).
pub const FAKE_PRICE: u128 = 5_000_000;

/// Largest payment accepted by a single purchase.
pub const MAX_PURCHASE_AMOUNT: u128 = 500_000_000;

/// Longest vesting period, in weeks.
pub const MAX_VEST: u128 = 52;

/// Number of blocks that make up one week of vesting.
pub const BLOCKS_IN_WEEK: u128 = 100_000;

/// Most purchases one owner may hold open at the same time.
pub const MAX_OPEN_PURCHASES: usize = 5;

} // verus!
