//! Deterministic fee-source doubles: each claim reports fixed quote/base
//! amounts, for exercising the engine's quote-only, cap and dust paths.
//! The host performs the matching treasury transfer where one is due.

use vstd::prelude::*;
use crate::types::AccountId;

verus! {

/// Amounts reported by one fee claim.
#[derive(Clone, Copy, PartialEq, Eq, Structural, Debug)]
pub struct DammClaimQuoteFees {
    pub quote_fees_collected: u64,
    pub base_fees_collected: u64,
}

/// Amounts reported by the simple claim double.
#[derive(Clone, Copy, PartialEq, Eq, Structural, Debug)]
pub struct ClaimResult {
    pub quote_fees_collected: u64,
    pub base_fees_collected: u64,
}

/// Event emitted when fees are collected.
#[derive(Clone, Copy, PartialEq, Eq, Structural, Debug)]
pub struct QuoteFeesCollected {
    pub amount: u64,
    pub base_amount: u64,
    pub treasury: AccountId,
}

/// Failures of the fee-source double.
#[derive(Clone, Copy, PartialEq, Eq, Structural, Debug)]
pub enum CpAmmStubError {
    InsufficientFees,
    InvalidTreasury,
}

/// Standard quote-only fee claim: 100_000 quote, no base fees.
pub fn claim_fees(treasury: AccountId) -> (r: (DammClaimQuoteFees, QuoteFeesCollected))
    ensures
        r.0 == (DammClaimQuoteFees { quote_fees_collected: 100_000u64, base_fees_collected: 0u64 }),
        r.1 == (QuoteFeesCollected { amount: 100_000u64, base_amount: 0u64, treasury }),
{
    (
        DammClaimQuoteFees { quote_fees_collected: 100_000, base_fees_collected: 0 },
        QuoteFeesCollected { amount: 100_000, base_amount: 0, treasury },
    )
}

/// Mixed claim: reports non-zero base fees, which the engine must reject.
pub fn claim_fees_with_base(treasury: AccountId) -> (r: (DammClaimQuoteFees, QuoteFeesCollected))
    ensures
        r.0 == (DammClaimQuoteFees {
            quote_fees_collected: 50_000u64,
            base_fees_collected: 25_000u64,
        }),
        r.1 == (QuoteFeesCollected { amount: 50_000u64, base_amount: 25_000u64, treasury }),
{
    (
        DammClaimQuoteFees { quote_fees_collected: 50_000, base_fees_collected: 25_000 },
        QuoteFeesCollected { amount: 50_000, base_amount: 25_000, treasury },
    )
}

/// Large quote-only claim, for exercising the daily cap.
pub fn claim_large_fees(treasury: AccountId) -> (r: (DammClaimQuoteFees, QuoteFeesCollected))
    ensures
        r.0 == (DammClaimQuoteFees {
            quote_fees_collected: 1_000_000u64,
            base_fees_collected: 0u64,
        }),
        r.1 == (QuoteFeesCollected { amount: 1_000_000u64, base_amount: 0u64, treasury }),
{
    (
        DammClaimQuoteFees { quote_fees_collected: 1_000_000, base_fees_collected: 0 },
        QuoteFeesCollected { amount: 1_000_000, base_amount: 0, treasury },
    )
}

/// Tiny quote-only claim, for exercising dust suppression.
pub fn claim_small_fees(treasury: AccountId) -> (r: (DammClaimQuoteFees, QuoteFeesCollected))
    ensures
        r.0 == (DammClaimQuoteFees { quote_fees_collected: 10u64, base_fees_collected: 0u64 }),
        r.1 == (QuoteFeesCollected { amount: 10u64, base_amount: 0u64, treasury }),
{
    (
        DammClaimQuoteFees { quote_fees_collected: 10, base_fees_collected: 0 },
        QuoteFeesCollected { amount: 10, base_amount: 0, treasury },
    )
}

/// A claim when no fees are pending.
pub fn claim_no_fees() -> (r: DammClaimQuoteFees)
    ensures
        r == (DammClaimQuoteFees { quote_fees_collected: 0u64, base_fees_collected: 0u64 }),
{
    DammClaimQuoteFees { quote_fees_collected: 0, base_fees_collected: 0 }
}

/// Simple deterministic claim double: quote-only fees of 100_000.
pub fn claim_fees_stub() -> (r: ClaimResult)
    ensures
        r == (ClaimResult { quote_fees_collected: 100_000u64, base_fees_collected: 0u64 }),
{
    ClaimResult { quote_fees_collected: 100_000, base_fees_collected: 0 }
}

} // verus!
