//! Data model: configuration (`Policy`), per-day checkpoint (`Progress`),
//! per-invocation investor inputs, emitted events, and error codes.

use vstd::prelude::*;
use crate::{DAY_SECONDS, BPS_DENOM, PAGE_RECORD_CAP};

verus! {

/// Opaque identity of an external account (vault, mint, token account, ...).
/// The engine only ever compares identities and hands them back out; the
/// hosting environment maps them to real accounts.
#[derive(Clone, Copy, PartialEq, Eq, Structural, Debug)]
pub struct AccountId {
    pub id: u64,
}

/// Immutable-after-setup distribution configuration.
#[derive(Clone, PartialEq, Eq, Structural, Debug)]
pub struct Policy {
    /// Vault this policy belongs to.
    pub vault: AccountId,
    /// Reference total investor commitment.
    pub y0: u128,
    /// Investor share of claimed fees, in basis points (at most 10_000).
    pub investor_fee_share_bps: u16,
    /// Optional cap on the amount distributed to investors per day.
    pub daily_cap: Option<u64>,
    /// Payouts below this amount are suppressed to dust.
    pub min_payout: u64,
    /// Dust threshold (recorded configuration; not consulted by the engine).
    pub dust_threshold: u64,
}

/// One per-day audit entry, used solely for idempotent replay detection.
#[derive(Clone, Copy, PartialEq, Eq, Structural, Debug)]
pub struct PageRecord {
    pub page_index: u64,
    pub distributed: u64,
    pub timestamp: i64,
}

/// Day-scoped mutable checkpoint of the distribution engine.
#[derive(Clone, PartialEq, Eq, Debug)]
pub struct Progress {
    /// Vault this checkpoint belongs to.
    pub vault: AccountId,
    /// Timestamp at which the current day was opened by an accepted page 0.
    pub day_start_ts: i64,
    /// Timestamp of the last day close; 0 when no day has been closed yet.
    pub last_distribution_ts: i64,
    /// Total paid to investors since the current day opened.
    pub cumulative_distributed_today: u64,
    /// Accumulated dust and rounding remainder not yet routed anywhere.
    pub carry_lamports: u64,
    /// Highest page index processed in the current day.
    pub cursor: u64,
    /// Treasury balance observed when the current day opened (or last closed).
    pub treasury_snapshot: u64,
    /// Per-day ledger of processed pages; cleared when a new day opens.
    pub page_records: Vec<PageRecord>,
}

/// Mathematical model of a `Progress` checkpoint: the same fields, with the
/// page ledger as a sequence.
#[verifier::ext_equal]
pub ghost struct ProgressV {
    pub vault: AccountId,
    pub day_start_ts: i64,
    pub last_distribution_ts: i64,
    pub cumulative_distributed_today: u64,
    pub carry_lamports: u64,
    pub cursor: u64,
    pub treasury_snapshot: u64,
    pub page_records: Seq<PageRecord>,
}

impl View for Progress {
    type V = ProgressV;

    open spec fn view(&self) -> ProgressV {
        ProgressV {
            vault: self.vault,
            day_start_ts: self.day_start_ts,
            last_distribution_ts: self.last_distribution_ts,
            cumulative_distributed_today: self.cumulative_distributed_today,
            carry_lamports: self.carry_lamports,
            cursor: self.cursor,
            treasury_snapshot: self.treasury_snapshot,
            page_records: self.page_records@,
        }
    }
}

/// A policy the setup step accepts: the fee share is a valid fraction.
pub open spec fn wf_policy(policy: Policy) -> bool {
    policy.investor_fee_share_bps <= BPS_DENOM
}

/// Well-formed checkpoint: timestamps leave room for one day window, the
/// page ledger is within capacity, records never repeat a page index, and
/// every recorded index is covered by the cursor.
pub open spec fn wf_progress(p: ProgressV) -> bool {
    &&& 0 <= p.day_start_ts <= i64::MAX - DAY_SECONDS
    &&& 0 <= p.last_distribution_ts <= i64::MAX - DAY_SECONDS
    &&& p.page_records.len() <= PAGE_RECORD_CAP
    &&& forall|i: int, j: int|
        0 <= i < j < p.page_records.len() ==> p.page_records[i].page_index
            != p.page_records[j].page_index
    &&& forall|i: int|
        0 <= i < p.page_records.len() ==> p.page_records[i].page_index <= p.cursor
}

/// Ephemeral per-invocation investor row: stream identity, payout
/// destination, and the currently locked amount reported by the lock
/// registry.
#[derive(Clone, Copy, PartialEq, Eq, Structural, Debug)]
pub struct InvestorInput {
    pub stream_pubkey: AccountId,
    pub investor_ata: AccountId,
    pub locked_amount: u64,
}

/// One transfer the engine instructs the host to perform: `amount` quote
/// tokens from the treasury to `destination`. Zero amounts are suppressed
/// payouts and must not be transferred.
#[derive(Clone, Copy, PartialEq, Eq, Structural, Debug)]
pub struct PayoutEntry {
    pub destination: AccountId,
    pub amount: u64,
}

/// Event: policy and progress set up for a vault.
#[derive(Clone, Copy, PartialEq, Eq, Structural, Debug)]
pub struct HonoraryPositionInitialized {
    pub pool: AccountId,
    pub position: AccountId,
    pub quote_mint: AccountId,
}

/// Event: fees claimed for a page (emitted only for non-replayed pages).
#[derive(Clone, Copy, PartialEq, Eq, Structural, Debug)]
pub struct QuoteFeesClaimed {
    pub pool: AccountId,
    pub position: AccountId,
    pub claimed_quote: u64,
}

/// Event: one distribution page completed (or replayed).
#[derive(Clone, Copy, PartialEq, Eq, Structural, Debug)]
pub struct InvestorPayoutPage {
    pub day_ts: i64,
    pub page_index: u64,
    pub page_total_payout: u64,
    pub distributed_to_investors: u64,
    pub carry_after_page: u64,
}

/// Event: day closed, remainder routed to the creator.
#[derive(Clone, Copy, PartialEq, Eq, Structural, Debug)]
pub struct CreatorPayoutDayClosed {
    pub day_ts: i64,
    pub creator_payout: u64,
}

/// Every way an invocation can fail. Failures are terminal for the
/// invocation and leave all state unchanged.
#[derive(Clone, Copy, PartialEq, Eq, Structural, Debug)]
pub enum ErrorCode {
    QuoteOnlyNotGuaranteed,
    BaseFeesObserved,
    DayWindowNotElapsed,
    NoLockedFunds,
    DailyCapReached,
    InvalidCursor,
    MissingInvestorStreamflow,
    MissingInvestorAta,
    InsufficientTreasuryBalance,
    PoolTokenOrderMismatch,
    CpAmmIntegrationMissing,
    StreamflowIntegrationMissing,
    InvalidBps,
    MissingInvestorAccount,
    PageRecordCapacityExceeded,
}

impl ErrorCode {
    /// Stable numeric code for each error, for hosts that report errors
    /// as numbers.
    pub fn code(&self) -> (r: u32)
        ensures
            r == self.spec_code(),
    {
        match self {
            ErrorCode::QuoteOnlyNotGuaranteed => 6000,
            ErrorCode::BaseFeesObserved => 6001,
            ErrorCode::DayWindowNotElapsed => 6002,
            ErrorCode::NoLockedFunds => 6003,
            ErrorCode::DailyCapReached => 6004,
            ErrorCode::InvalidCursor => 6005,
            ErrorCode::MissingInvestorStreamflow => 6006,
            ErrorCode::MissingInvestorAta => 6007,
            ErrorCode::InsufficientTreasuryBalance => 6008,
            ErrorCode::PoolTokenOrderMismatch => 6009,
            ErrorCode::CpAmmIntegrationMissing => 6010,
            ErrorCode::StreamflowIntegrationMissing => 6011,
            ErrorCode::InvalidBps => 6012,
            ErrorCode::MissingInvestorAccount => 6013,
            ErrorCode::PageRecordCapacityExceeded => 6014,
        }
    }

    pub open spec fn spec_code(&self) -> u32 {
        match self {
            ErrorCode::QuoteOnlyNotGuaranteed => 6000,
            ErrorCode::BaseFeesObserved => 6001,
            ErrorCode::DayWindowNotElapsed => 6002,
            ErrorCode::NoLockedFunds => 6003,
            ErrorCode::DailyCapReached => 6004,
            ErrorCode::InvalidCursor => 6005,
            ErrorCode::MissingInvestorStreamflow => 6006,
            ErrorCode::MissingInvestorAta => 6007,
            ErrorCode::InsufficientTreasuryBalance => 6008,
            ErrorCode::PoolTokenOrderMismatch => 6009,
            ErrorCode::CpAmmIntegrationMissing => 6010,
            ErrorCode::StreamflowIntegrationMissing => 6011,
            ErrorCode::InvalidBps => 6012,
            ErrorCode::MissingInvestorAccount => 6013,
            ErrorCode::PageRecordCapacityExceeded => 6014,
        }
    }
}

} // verus!
