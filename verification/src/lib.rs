//! Paginated, idempotent, time-gated distribution of claimed quote-currency
//! fees to investors, pro-rata by locked amount, with a daily cap, minimum
//! payout dust suppression, and a quote-only accrual guarantee.

use vstd::prelude::*;

pub mod cp_amm_stub;
pub mod engine;
pub mod init;
pub mod laws;
pub mod math;
pub mod streamflow_stub;
pub mod payouts;
pub mod types;

verus! {

/// Length of the distribution day window, in seconds.
pub const DAY_SECONDS: i64 = 86_400;

/// Basis-point denominator: 10_000 bps == 100%.
pub const BPS_DENOM: u64 = 10_000;

/// Capacity of the per-day page-record ledger.
pub const PAGE_RECORD_CAP: usize = 50;

} // verus!
