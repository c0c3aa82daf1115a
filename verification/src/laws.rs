//! The engine's guarantees, stated and proved once and for all over the
//! `spec_crank` transition: conservation of the fee pool, idempotent replay,
//! cursor monotonicity, daily-cap enforcement, the quote-only guarantee and
//! the 24-hour window gate.

use vstd::prelude::*;
use vstd::arithmetic::div_mod::{lemma_div_pos_is_pos, lemma_multiply_divide_le, lemma_multiply_divide_lt};
use vstd::arithmetic::mul::{lemma_mul_inequality, lemma_mul_nonnegative};
use crate::{BPS_DENOM, DAY_SECONDS};
use crate::engine::{
    spec_crank, spec_cumulative_base, spec_cursor_fails, spec_effective_claimed,
    spec_find_record, spec_investor_fee_quote, spec_snapshot_base, spec_window_fails, CrankStep,
    lemma_find_record_none,
};
use crate::math::{max_i, min_i, sat_mul_u128, sat_sub, spec_f_locked_bps, spec_fee_quote_raw};
use crate::payouts::{
    lemma_locked_total_nonneg, lemma_page_sums_zero_quote, lemma_sum_raw_mul_bound,
    lemma_total_plus_suppressed, spec_locked_total, spec_page_suppressed, spec_page_total,
    spec_raw_payout, spec_sum_raw,
};
use crate::types::{AccountId, ErrorCode, InvestorInput, PageRecord, Policy, ProgressV, wf_policy, wf_progress};

verus! {

/// The locked fraction in basis points is always between 0 and 10_000.
pub proof fn lemma_f_locked_bps_range(locked_total: int, y0: int)
    requires
        0 <= locked_total,
        0 <= y0,
    ensures
        0 <= spec_f_locked_bps(locked_total, y0) <= BPS_DENOM,
{
    let bps = BPS_DENOM as int;
    if y0 != 0 && locked_total < y0 {
        let prod = sat_mul_u128(locked_total, bps);
        lemma_mul_nonnegative(locked_total, bps);
        lemma_div_pos_is_pos(prod, y0);
        lemma_mul_inequality(locked_total + 1, y0, bps);
        lemma_multiply_divide_lt(prod, y0, bps);
    }
}

/// The raw fee quote never exceeds the claimed amount it is a share of.
pub proof fn lemma_fee_quote_raw_bounds(effective_claimed: int, eligible_bps: int)
    requires
        0 <= effective_claimed,
        0 <= eligible_bps <= BPS_DENOM,
    ensures
        0 <= spec_fee_quote_raw(effective_claimed, eligible_bps) <= effective_claimed,
{
    let bps = BPS_DENOM as int;
    lemma_mul_nonnegative(effective_claimed, eligible_bps);
    lemma_div_pos_is_pos(effective_claimed * eligible_bps, bps);
    lemma_mul_inequality(eligible_bps, bps, effective_claimed);
    lemma_multiply_divide_le(effective_claimed * eligible_bps, bps, effective_claimed);
}

/// The page's fee pool is non-negative, never exceeds the effective claim,
/// and never exceeds the remaining daily cap.
pub proof fn lemma_investor_fee_quote_bounds(
    policy: Policy,
    effective_claimed: int,
    locked_total: int,
    cumulative_base: int,
)
    requires
        wf_policy(policy),
        0 <= effective_claimed,
        0 <= locked_total,
    ensures
        0 <= spec_investor_fee_quote(policy, effective_claimed, locked_total, cumulative_base)
            <= effective_claimed,
        policy.daily_cap matches Some(cap) ==> spec_investor_fee_quote(
            policy,
            effective_claimed,
            locked_total,
            cumulative_base,
        ) <= sat_sub(cap as int, cumulative_base),
{
    if locked_total != 0 {
        lemma_f_locked_bps_range(locked_total, policy.y0 as int);
        let eligible = min_i(
            policy.investor_fee_share_bps as int,
            spec_f_locked_bps(locked_total, policy.y0 as int),
        );
        lemma_fee_quote_raw_bounds(effective_claimed, eligible);
    }
}

/// Every page sum is non-negative.
pub proof fn lemma_page_sums_nonneg(
    investors: Seq<InvestorInput>,
    ifq: int,
    locked_total: int,
    min_payout: int,
)
    requires
        0 <= ifq,
    ensures
        0 <= spec_page_total(investors, ifq, locked_total, min_payout),
        0 <= spec_page_suppressed(investors, ifq, locked_total, min_payout),
    decreases investors.len(),
{
    if investors.len() > 0 {
        lemma_page_sums_nonneg(investors.drop_last(), ifq, locked_total, min_payout);
        let l = investors.last().locked_amount as int;
        if locked_total > 0 {
            lemma_mul_nonnegative(ifq, l);
            lemma_div_pos_is_pos(ifq * l, locked_total);
        }
        assert(spec_raw_payout(ifq, l, locked_total) >= 0);
    }
}

/// Conservation of a page's fee pool: what is paid out never exceeds the
/// pool, so the dust remainder `ifq - page_total` is itself non-negative.
/// Together with the payout computation's contract this is the page-level
/// conservation law: `page_total + page_dust == investor_fee_quote`.
pub proof fn lemma_page_total_bounds(
    investors: Seq<InvestorInput>,
    ifq: int,
    min_payout: int,
)
    requires
        0 <= ifq,
        spec_locked_total(investors) == 0 ==> ifq == 0,
    ensures
        0 <= spec_page_total(investors, ifq, spec_locked_total(investors), min_payout) <= ifq,
{
    let lt = spec_locked_total(investors);
    lemma_locked_total_nonneg(investors);
    lemma_page_sums_nonneg(investors, ifq, lt, min_payout);
    if ifq == 0 {
        lemma_page_sums_zero_quote(investors, lt, min_payout);
    } else {
        lemma_sum_raw_mul_bound(investors, ifq, lt);
        lemma_total_plus_suppressed(investors, ifq, lt, min_payout);
        let sr = spec_sum_raw(investors, ifq, lt);
        lemma_mul_inequality(spec_locked_total(investors), lt, ifq);
        assert(sr <= ifq) by (nonlinear_arith)
            requires
                sr * lt <= ifq * lt,
                lt > 0,
        ;
    }
}

/// A record for the freshly recorded page is found in the new ledger, and it
/// is exactly the record that was appended.
pub proof fn lemma_find_record_push(records: Seq<PageRecord>, rec: PageRecord)
    requires
        forall|i: int| 0 <= i < records.len() ==> records[i].page_index != rec.page_index,
    ensures
        spec_find_record(records.push(rec), rec.page_index as int) == Some(rec),
    decreases records.len(),
{
    let pushed = records.push(rec);
    if records.len() == 0 {
        assert(pushed[0] == rec);
    } else {
        assert(pushed[0] == records[0]);
        lemma_find_record_push(records.skip(1), rec);
        assert(pushed.skip(1) =~= records.skip(1).push(rec));
    }
}

/// Cursor monotonicity: within a day (any page after the first), a
/// successful crank never moves the cursor backwards.
pub proof fn law_cursor_monotone(
    policy: Policy,
    p: ProgressV,
    pool: AccountId,
    position: AccountId,
    now_ts: int,
    page_index: int,
    is_last_page: bool,
    claimed_quote: int,
    claimed_base: int,
    treasury_balance: int,
    investors: Seq<InvestorInput>,
)
    requires
        0 < page_index <= u64::MAX,
        spec_crank(
            policy,
            p,
            pool,
            position,
            now_ts,
            page_index,
            is_last_page,
            claimed_quote,
            claimed_base,
            treasury_balance,
            investors,
        ) matches Ok(s),
    ensures
        spec_crank(
            policy,
            p,
            pool,
            position,
            now_ts,
            page_index,
            is_last_page,
            claimed_quote,
            claimed_base,
            treasury_balance,
            investors,
        ).unwrap().progress.cursor >= p.cursor,
{
}

/// Daily-cap enforcement: if the day's running total is within the cap
/// before a crank, it is within the cap after it, whatever the claim.
pub proof fn law_daily_cap(
    policy: Policy,
    p: ProgressV,
    pool: AccountId,
    position: AccountId,
    now_ts: int,
    page_index: int,
    is_last_page: bool,
    claimed_quote: int,
    claimed_base: int,
    treasury_balance: int,
    investors: Seq<InvestorInput>,
    cap: u64,
)
    requires
        wf_policy(policy),
        policy.daily_cap == Some(cap),
        0 <= claimed_quote <= u64::MAX,
        0 <= treasury_balance <= u64::MAX,
        page_index == 0 || p.cumulative_distributed_today <= cap,
        spec_crank(
            policy,
            p,
            pool,
            position,
            now_ts,
            page_index,
            is_last_page,
            claimed_quote,
            claimed_base,
            treasury_balance,
            investors,
        ) matches Ok(s),
    ensures
        spec_crank(
            policy,
            p,
            pool,
            position,
            now_ts,
            page_index,
            is_last_page,
            claimed_quote,
            claimed_base,
            treasury_balance,
            investors,
        ).unwrap().progress.cumulative_distributed_today <= cap,
{
    let snapshot = spec_snapshot_base(p, page_index, treasury_balance);
    let cumulative = spec_cumulative_base(p, page_index);
    let lt = spec_locked_total(investors);
    let effective = spec_effective_claimed(claimed_quote, treasury_balance, snapshot);
    let ifq = spec_investor_fee_quote(policy, effective, lt, cumulative);
    lemma_locked_total_nonneg(investors);
    lemma_investor_fee_quote_bounds(policy, effective, lt, cumulative);
    lemma_page_total_bounds(investors, ifq, policy.min_payout as int);
}

/// Quote-only guarantee: when neither window nor cursor rejects the page, a
/// claim that reports any base fees fails with `BaseFeesObserved` (and the
/// engine's contract guarantees a failed crank changes no state).
pub proof fn law_quote_only(
    policy: Policy,
    p: ProgressV,
    pool: AccountId,
    position: AccountId,
    now_ts: int,
    page_index: int,
    is_last_page: bool,
    claimed_quote: int,
    claimed_base: int,
    treasury_balance: int,
    investors: Seq<InvestorInput>,
)
    requires
        claimed_base != 0,
    ensures
        spec_crank(
            policy,
            p,
            pool,
            position,
            now_ts,
            page_index,
            is_last_page,
            claimed_quote,
            claimed_base,
            treasury_balance,
            investors,
        ) is Err,
        !spec_window_fails(p, now_ts, page_index) && !spec_cursor_fails(p, page_index)
            ==> spec_crank(
            policy,
            p,
            pool,
            position,
            now_ts,
            page_index,
            is_last_page,
            claimed_quote,
            claimed_base,
            treasury_balance,
            investors,
        ) == Err::<CrankStep, ErrorCode>(ErrorCode::BaseFeesObserved),
{
}

/// Window gate, closed side: a page-0 crank before 24 hours have elapsed
/// since the last distribution fails (and hence changes no state).
pub proof fn law_window_gate_closed(
    policy: Policy,
    p: ProgressV,
    pool: AccountId,
    position: AccountId,
    now_ts: int,
    is_last_page: bool,
    claimed_quote: int,
    claimed_base: int,
    treasury_balance: int,
    investors: Seq<InvestorInput>,
)
    requires
        p.last_distribution_ts != 0,
        now_ts < p.last_distribution_ts + DAY_SECONDS,
    ensures
        spec_crank(
            policy,
            p,
            pool,
            position,
            now_ts,
            0,
            is_last_page,
            claimed_quote,
            claimed_base,
            treasury_balance,
            investors,
        ) == Err::<CrankStep, ErrorCode>(ErrorCode::DayWindowNotElapsed),
{
}

/// Window gate, open side: at or after 24 hours (or on the very first day),
/// a quote-only page-0 crank whose payouts the treasury can cover succeeds
/// and opens a fresh day: day start is now, the running total is exactly the
/// page total, the cursor is 0 and the ledger holds the one new record.
pub proof fn law_window_gate_open(
    policy: Policy,
    p: ProgressV,
    pool: AccountId,
    position: AccountId,
    now_ts: int,
    claimed_quote: int,
    treasury_balance: int,
    investors: Seq<InvestorInput>,
)
    requires
        wf_policy(policy),
        p.last_distribution_ts == 0 || now_ts >= p.last_distribution_ts + DAY_SECONDS,
        0 <= now_ts <= i64::MAX - DAY_SECONDS,
        0 <= claimed_quote <= u64::MAX,
        0 <= treasury_balance <= u64::MAX,
        treasury_balance >= spec_page_total(
            investors,
            spec_investor_fee_quote(
                policy,
                spec_effective_claimed(claimed_quote, treasury_balance, treasury_balance),
                spec_locked_total(investors),
                0,
            ),
            spec_locked_total(investors),
            policy.min_payout as int,
        ),
    ensures
        ({
            let r = spec_crank(
                policy,
                p,
                pool,
                position,
                now_ts,
                0,
                false,
                claimed_quote,
                0,
                treasury_balance,
                investors,
            );
            let ifq = spec_investor_fee_quote(
                policy,
                spec_effective_claimed(claimed_quote, treasury_balance, treasury_balance),
                spec_locked_total(investors),
                0,
            );
            let page_total = spec_page_total(
                investors,
                ifq,
                spec_locked_total(investors),
                policy.min_payout as int,
            );
            &&& r is Ok
            &&& r.unwrap().progress.day_start_ts == now_ts
            &&& r.unwrap().progress.cumulative_distributed_today == page_total
            &&& r.unwrap().progress.cursor == 0
            &&& r.unwrap().progress.page_records.len() == 1
            &&& r.unwrap().progress.page_records[0].page_index == 0
            &&& r.unwrap().progress.page_records[0].distributed == page_total
        }),
{
    let lt = spec_locked_total(investors);
    let effective = spec_effective_claimed(claimed_quote, treasury_balance, treasury_balance);
    let ifq = spec_investor_fee_quote(policy, effective, lt, 0);
    lemma_locked_total_nonneg(investors);
    lemma_investor_fee_quote_bounds(policy, effective, lt, 0);
    lemma_page_total_bounds(investors, ifq, policy.min_payout as int);
    assert(spec_find_record(Seq::<PageRecord>::empty(), 0) is None);
}

/// Idempotent replay: a crank whose page is already recorded transfers
/// nothing, pays the creator nothing, and leaves every checkpoint field but
/// the (non-decreasing) cursor untouched.
pub proof fn law_replay_no_effect(
    policy: Policy,
    p: ProgressV,
    pool: AccountId,
    position: AccountId,
    now_ts: int,
    page_index: int,
    is_last_page: bool,
    claimed_quote: int,
    claimed_base: int,
    treasury_balance: int,
    investors: Seq<InvestorInput>,
)
    requires
        0 <= page_index <= u64::MAX,
        spec_crank(
            policy,
            p,
            pool,
            position,
            now_ts,
            page_index,
            is_last_page,
            claimed_quote,
            claimed_base,
            treasury_balance,
            investors,
        ) matches Ok(s) && s.fees_claimed is None,
    ensures
        ({
            let s = spec_crank(
                policy,
                p,
                pool,
                position,
                now_ts,
                page_index,
                is_last_page,
                claimed_quote,
                claimed_base,
                treasury_balance,
                investors,
            ).unwrap();
            &&& s.payouts.len() == 0
            &&& s.creator_payout == 0
            &&& s.day_closed is None
            &&& s.progress.page_records == p.page_records
            &&& s.progress.cumulative_distributed_today == p.cumulative_distributed_today
            &&& s.progress.carry_lamports == p.carry_lamports
            &&& s.progress.day_start_ts == p.day_start_ts
            &&& s.progress.last_distribution_ts == p.last_distribution_ts
            &&& s.progress.treasury_snapshot == p.treasury_snapshot
            &&& s.progress.cursor == max_i(p.cursor as int, page_index)
        }),
{
}

/// Idempotence across calls: re-invoking a freshly completed mid-day page
/// with the same inputs is accepted as a replay that re-emits the recorded
/// page event, performs no transfer, and leaves the checkpoint exactly as
/// the first call left it.
pub proof fn law_idempotent_reinvoke(
    policy: Policy,
    p: ProgressV,
    pool: AccountId,
    position: AccountId,
    now_ts: int,
    page_index: int,
    claimed_quote: int,
    treasury_balance: int,
    investors: Seq<InvestorInput>,
)
    requires
        wf_progress(p),
        0 < page_index <= u64::MAX,
        spec_crank(
            policy,
            p,
            pool,
            position,
            now_ts,
            page_index,
            false,
            claimed_quote,
            0,
            treasury_balance,
            investors,
        ) matches Ok(s) && s.fees_claimed is Some,
    ensures
        ({
            let s1 = spec_crank(
                policy,
                p,
                pool,
                position,
                now_ts,
                page_index,
                false,
                claimed_quote,
                0,
                treasury_balance,
                investors,
            ).unwrap();
            let r2 = spec_crank(
                policy,
                s1.progress,
                pool,
                position,
                now_ts,
                page_index,
                false,
                claimed_quote,
                0,
                treasury_balance,
                investors,
            );
            &&& r2 is Ok
            &&& r2.unwrap().fees_claimed is None
            &&& r2.unwrap().payouts.len() == 0
            &&& r2.unwrap().creator_payout == 0
            &&& r2.unwrap().payout_page == s1.payout_page
            &&& r2.unwrap().progress == s1.progress
        }),
{
    let s1 = spec_crank(
        policy,
        p,
        pool,
        position,
        now_ts,
        page_index,
        false,
        claimed_quote,
        0,
        treasury_balance,
        investors,
    ).unwrap();
    let rec = PageRecord {
        page_index: page_index as u64,
        distributed: spec_page_total(
            investors,
            spec_investor_fee_quote(
                policy,
                spec_effective_claimed(
                    claimed_quote,
                    treasury_balance,
                    spec_snapshot_base(p, page_index, treasury_balance),
                ),
                spec_locked_total(investors),
                spec_cumulative_base(p, page_index),
            ),
            spec_locked_total(investors),
            policy.min_payout as int,
        ) as u64,
        timestamp: now_ts as i64,
    };
    assert(rec.page_index == page_index);
    lemma_find_record_none(p.page_records, page_index);
    lemma_find_record_push(p.page_records, rec);
    assert(s1.progress.page_records =~= p.page_records.push(rec));
    assert(s1.progress.cursor == page_index as u64);
    assert(spec_find_record(s1.progress.page_records, page_index) == Some(rec));
    let r2 = spec_crank(
        policy,
        s1.progress,
        pool,
        position,
        now_ts,
        page_index,
        false,
        claimed_quote,
        0,
        treasury_balance,
        investors,
    );
    assert(r2 is Ok);
    assert(r2.unwrap().progress =~= s1.progress);
}

/// Each non-replayed page adds exactly its page total to the day's running
/// total (so over a day, the running total is the sum of its page totals).
pub proof fn law_cumulative_additivity(
    policy: Policy,
    p: ProgressV,
    pool: AccountId,
    position: AccountId,
    now_ts: int,
    page_index: int,
    is_last_page: bool,
    claimed_quote: int,
    claimed_base: int,
    treasury_balance: int,
    investors: Seq<InvestorInput>,
)
    requires
        wf_policy(policy),
        0 <= claimed_quote <= u64::MAX,
        0 <= treasury_balance <= u64::MAX,
        spec_crank(
            policy,
            p,
            pool,
            position,
            now_ts,
            page_index,
            is_last_page,
            claimed_quote,
            claimed_base,
            treasury_balance,
            investors,
        ) matches Ok(s) && s.fees_claimed is Some,
        // the day's running total stays within range
        spec_cumulative_base(p, page_index) + spec_page_total(
            investors,
            spec_investor_fee_quote(
                policy,
                spec_effective_claimed(
                    claimed_quote,
                    treasury_balance,
                    spec_snapshot_base(p, page_index, treasury_balance),
                ),
                spec_locked_total(investors),
                spec_cumulative_base(p, page_index),
            ),
            spec_locked_total(investors),
            policy.min_payout as int,
        ) <= u64::MAX,
    ensures
        spec_crank(
            policy,
            p,
            pool,
            position,
            now_ts,
            page_index,
            is_last_page,
            claimed_quote,
            claimed_base,
            treasury_balance,
            investors,
        ).unwrap().progress.cumulative_distributed_today == spec_cumulative_base(p, page_index)
            + spec_page_total(
            investors,
            spec_investor_fee_quote(
                policy,
                spec_effective_claimed(
                    claimed_quote,
                    treasury_balance,
                    spec_snapshot_base(p, page_index, treasury_balance),
                ),
                spec_locked_total(investors),
                spec_cumulative_base(p, page_index),
            ),
            spec_locked_total(investors),
            policy.min_payout as int,
        ),
{
    let snapshot = spec_snapshot_base(p, page_index, treasury_balance);
    let cumulative = spec_cumulative_base(p, page_index);
    let lt = spec_locked_total(investors);
    let effective = spec_effective_claimed(claimed_quote, treasury_balance, snapshot);
    let ifq = spec_investor_fee_quote(policy, effective, lt, cumulative);
    lemma_locked_total_nonneg(investors);
    lemma_investor_fee_quote_bounds(policy, effective, lt, cumulative);
    lemma_page_total_bounds(investors, ifq, policy.min_payout as int);
}

/// Daily conservation at day close: when the treasury actually grew by at
/// least what was distributed, everything the day claimed plus all carried
/// dust is exactly accounted for — distributed to investors, paid to the
/// creator, or (when no dust was pending) still carried as zero.
pub proof fn law_daily_conservation(
    policy: Policy,
    p: ProgressV,
    pool: AccountId,
    position: AccountId,
    now_ts: int,
    page_index: int,
    claimed_quote: int,
    treasury_balance: int,
    investors: Seq<InvestorInput>,
)
    requires
        wf_policy(policy),
        0 <= claimed_quote <= u64::MAX,
        0 <= treasury_balance <= u64::MAX,
        0 <= p.treasury_snapshot <= treasury_balance,
        spec_crank(
            policy,
            p,
            pool,
            position,
            now_ts,
            page_index,
            true,
            claimed_quote,
            0,
            treasury_balance,
            investors,
        ) matches Ok(s) && s.fees_claimed is Some,
        // the day's payouts came out of the day's claims
        spec_cumulative_base(p, page_index) + spec_page_total(
            investors,
            spec_investor_fee_quote(
                policy,
                spec_effective_claimed(
                    claimed_quote,
                    treasury_balance,
                    spec_snapshot_base(p, page_index, treasury_balance),
                ),
                spec_locked_total(investors),
                spec_cumulative_base(p, page_index),
            ),
            spec_locked_total(investors),
            policy.min_payout as int,
        ) <= treasury_balance - spec_snapshot_base(p, page_index, treasury_balance),
        // the reported claim was actually deposited
        claimed_quote <= treasury_balance - spec_snapshot_base(p, page_index, treasury_balance),
        // carried dust stays within range
        p.carry_lamports + 2 * (treasury_balance - spec_snapshot_base(
            p,
            page_index,
            treasury_balance,
        )) <= u64::MAX,
    ensures
        ({
            let s = spec_crank(
                policy,
                p,
                pool,
                position,
                now_ts,
                page_index,
                true,
                claimed_quote,
                0,
                treasury_balance,
                investors,
            ).unwrap();
            let snapshot = spec_snapshot_base(p, page_index, treasury_balance);
            let ifq = spec_investor_fee_quote(
                policy,
                spec_effective_claimed(claimed_quote, treasury_balance, snapshot),
                spec_locked_total(investors),
                spec_cumulative_base(p, page_index),
            );
            let page_total = spec_page_total(
                investors,
                ifq,
                spec_locked_total(investors),
                policy.min_payout as int,
            );
            // the cumulative total is the sum of the day's page totals
            &&& s.progress.cumulative_distributed_today == spec_cumulative_base(p, page_index)
                + page_total
            // everything claimed plus all dust is distributed, paid out, or carried
            &&& s.progress.cumulative_distributed_today + s.creator_payout
                + s.progress.carry_lamports == (treasury_balance - snapshot) + p.carry_lamports + (
            ifq - page_total)
        }),
{
    let snapshot = spec_snapshot_base(p, page_index, treasury_balance);
    let cumulative = spec_cumulative_base(p, page_index);
    let lt = spec_locked_total(investors);
    let effective = spec_effective_claimed(claimed_quote, treasury_balance, snapshot);
    let ifq = spec_investor_fee_quote(policy, effective, lt, cumulative);
    lemma_locked_total_nonneg(investors);
    lemma_investor_fee_quote_bounds(policy, effective, lt, cumulative);
    lemma_page_total_bounds(investors, ifq, policy.min_payout as int);
}

} // verus!
