//! One-time setup: validate the configuration and produce the initial
//! `Policy` and zeroed `Progress` for a vault.

use vstd::prelude::*;
use crate::BPS_DENOM;
use crate::types::{
    AccountId, ErrorCode, HonoraryPositionInitialized, Policy, Progress, ProgressV, wf_policy,
    wf_progress,
};

verus! {

/// Create the policy and the zeroed progress checkpoint for a vault.
///
/// Rejects a fee share above 100% and a pool whose quote and base mints are
/// not distinct; on success nothing has been distributed yet and the
/// treasury snapshot is the current treasury balance.
pub fn initialize_honorary_position(
    vault: AccountId,
    pool: AccountId,
    honorary_position: AccountId,
    pool_quote_mint: AccountId,
    pool_base_mint: AccountId,
    treasury_amount: u64,
    y0: u128,
    investor_fee_share_bps: u16,
    daily_cap: Option<u64>,
    min_payout: u64,
    dust_threshold: u64,
) -> (r: Result<(Policy, Progress, HonoraryPositionInitialized), ErrorCode>)
    ensures
        investor_fee_share_bps > BPS_DENOM ==> r == Err::<
            (Policy, Progress, HonoraryPositionInitialized),
            ErrorCode,
        >(ErrorCode::InvalidBps),
        investor_fee_share_bps <= BPS_DENOM && pool_quote_mint == pool_base_mint ==> r == Err::<
            (Policy, Progress, HonoraryPositionInitialized),
            ErrorCode,
        >(ErrorCode::PoolTokenOrderMismatch),
        investor_fee_share_bps <= BPS_DENOM && pool_quote_mint != pool_base_mint ==> (r matches Ok(t)
            && t.0 == (Policy {
            vault,
            y0,
            investor_fee_share_bps,
            daily_cap,
            min_payout,
            dust_threshold,
        }) && wf_policy(t.0) && t.1@ == (ProgressV {
            vault,
            day_start_ts: 0,
            last_distribution_ts: 0,
            cumulative_distributed_today: 0,
            carry_lamports: 0,
            cursor: 0,
            treasury_snapshot: treasury_amount,
            page_records: Seq::<crate::types::PageRecord>::empty(),
        }) && wf_progress(t.1@) && t.2 == (HonoraryPositionInitialized {
            pool,
            position: honorary_position,
            quote_mint: pool_quote_mint,
        })),
{
    if investor_fee_share_bps > BPS_DENOM as u16 {
        return Err(ErrorCode::InvalidBps);
    }
    if pool_quote_mint == pool_base_mint {
        return Err(ErrorCode::PoolTokenOrderMismatch);
    }
    let policy = Policy { vault, y0, investor_fee_share_bps, daily_cap, min_payout, dust_threshold };
    let progress = Progress {
        vault,
        day_start_ts: 0,
        last_distribution_ts: 0,
        cumulative_distributed_today: 0,
        carry_lamports: 0,
        cursor: 0,
        treasury_snapshot: treasury_amount,
        page_records: Vec::new(),
    };
    let event = HonoraryPositionInitialized {
        pool,
        position: honorary_position,
        quote_mint: pool_quote_mint,
    };
    proof {
        assert(progress@ =~= ProgressV {
            vault,
            day_start_ts: 0,
            last_distribution_ts: 0,
            cumulative_distributed_today: 0,
            carry_lamports: 0,
            cursor: 0,
            treasury_snapshot: treasury_amount,
            page_records: Seq::<crate::types::PageRecord>::empty(),
        });
    }
    Ok((policy, progress, event))
}

} // verus!
