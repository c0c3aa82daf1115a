//! The paginated distribution engine: day/window gating, quote-only
//! enforcement, fee-pool computation, idempotent replay, checkpointing and
//! day close, as one verified transition.

use vstd::prelude::*;
use crate::{DAY_SECONDS, PAGE_RECORD_CAP};
use crate::math::{
    f_locked_bps, fee_quote_raw, max64, max_i, min64, min_i, sat_add64, sat_add_u64, sat_sub,
    sat_sub64, spec_f_locked_bps, spec_fee_quote_raw,
};
use crate::payouts::{compute_page_payouts, locked_total, spec_locked_total, spec_paid_amount, spec_page_total};
use crate::types::{
    AccountId, CreatorPayoutDayClosed, ErrorCode, InvestorInput, InvestorPayoutPage, PageRecord,
    PayoutEntry, Policy, Progress, ProgressV, QuoteFeesClaimed, wf_policy, wf_progress,
};

verus! {

/// Everything one successful crank hands back to the host: the transfers to
/// perform and the events to emit. On a replayed page `payouts` is empty and
/// no fees-claimed or day-closed event is produced.
#[derive(Clone, Debug)]
pub struct CrankOutcome {
    /// Per-investor transfers (zero amounts are suppressed payouts: no
    /// transfer is performed for them).
    pub payouts: Vec<PayoutEntry>,
    /// Fees-claimed event; absent on replay.
    pub fees_claimed: Option<QuoteFeesClaimed>,
    /// Page event, always produced on success.
    pub payout_page: InvestorPayoutPage,
    /// Day-closed event, produced when this call closed the day.
    pub day_closed: Option<CreatorPayoutDayClosed>,
    /// Amount to transfer to the creator (0 when nothing is owed).
    pub creator_payout: u64,
}

/// Mathematical counterpart of a successful crank: the next checkpoint and
/// the produced outcome.
pub ghost struct CrankStep {
    pub progress: ProgressV,
    pub payouts: Seq<PayoutEntry>,
    pub fees_claimed: Option<QuoteFeesClaimed>,
    pub payout_page: InvestorPayoutPage,
    pub day_closed: Option<CreatorPayoutDayClosed>,
    pub creator_payout: u64,
}

/// The 24-hour window gate. Page 0 opens a new day and is allowed once the
/// previous day is at least a day old; later pages must fall inside the
/// current day.
pub open spec fn spec_window_fails(p: ProgressV, now_ts: int, page_index: int) -> bool {
    if page_index == 0 {
        p.last_distribution_ts != 0 && now_ts < p.last_distribution_ts + DAY_SECONDS
    } else {
        now_ts >= p.day_start_ts + DAY_SECONDS
    }
}

/// Pages after the first must retry the current page or advance by one.
pub open spec fn spec_cursor_fails(p: ProgressV, page_index: int) -> bool {
    page_index != 0 && page_index != p.cursor && page_index != p.cursor as int + 1
}

/// First record with the given page index, if any.
pub open spec fn spec_find_record(records: Seq<PageRecord>, page_index: int) -> Option<PageRecord>
    decreases records.len(),
{
    if records.len() == 0 {
        None
    } else if records[0].page_index == page_index {
        Some(records[0])
    } else {
        spec_find_record(records.skip(1), page_index)
    }
}

pub proof fn lemma_find_record_none(records: Seq<PageRecord>, page_index: int)
    ensures
        spec_find_record(records, page_index) is None <==> (forall|i: int|
            0 <= i < records.len() ==> records[i].page_index != page_index),
    decreases records.len(),
{
    if records.len() > 0 && records[0].page_index != page_index {
        lemma_find_record_none(records.skip(1), page_index);
        let rest = records.skip(1);
        assert forall|i: int| 0 <= i < rest.len() implies rest[i] == records[i + 1] by {}
        if spec_find_record(records, page_index) is None {
            assert forall|i: int|
                0 <= i < records.len() implies records[i].page_index != page_index by {
                if i >= 1 {
                    assert(rest[i - 1] == records[i]);
                }
            }
        }
        if forall|i: int| 0 <= i < records.len() ==> records[i].page_index != page_index {
            assert forall|i: int| 0 <= i < rest.len() implies rest[i].page_index != page_index by {
                assert(rest[i] == records[i + 1]);
            }
        }
    }
}

/// Treasury snapshot the page measures claims against: page 0 re-snapshots
/// the current balance.
pub open spec fn spec_snapshot_base(p: ProgressV, page_index: int, treasury_balance: int) -> int {
    if page_index == 0 {
        treasury_balance
    } else {
        p.treasury_snapshot as int
    }
}

/// Amount distributed so far in the day the page belongs to.
pub open spec fn spec_cumulative_base(p: ProgressV, page_index: int) -> int {
    if page_index == 0 {
        0
    } else {
        p.cumulative_distributed_today as int
    }
}

/// Newly claimed quote amount the page distributes from: the larger of the
/// reported claim and the observed treasury growth.
pub open spec fn spec_effective_claimed(claimed_quote: int, treasury_balance: int, snapshot: int) -> int {
    max_i(claimed_quote, sat_sub(treasury_balance, snapshot))
}

/// The page's investor fee pool: the eligible share of the effective claim,
/// clamped to the remaining daily cap, and zero when nothing is locked.
pub open spec fn spec_investor_fee_quote(
    policy: Policy,
    effective_claimed: int,
    locked_total: int,
    cumulative_base: int,
) -> int {
    if locked_total == 0 {
        0
    } else {
        let eligible = min_i(
            policy.investor_fee_share_bps as int,
            spec_f_locked_bps(locked_total, policy.y0 as int),
        );
        let raw = spec_fee_quote_raw(effective_claimed, eligible);
        match policy.daily_cap {
            Some(cap) => min_i(raw, sat_sub(cap as int, cumulative_base)),
            None => raw,
        }
    }
}

/// The full crank transition: either the error the invocation fails with
/// (in which case no state changes), or the next checkpoint and outcome.
pub open spec fn spec_crank(
    policy: Policy,
    p: ProgressV,
    pool: AccountId,
    position: AccountId,
    now_ts: int,
    page_index: int,
    is_last_page: bool,
    claimed_quote: int,
    claimed_base: int,
    treasury_balance: int,
    investors: Seq<InvestorInput>,
) -> Result<CrankStep, ErrorCode> {
    if spec_window_fails(p, now_ts, page_index) {
        Err(ErrorCode::DayWindowNotElapsed)
    } else if spec_cursor_fails(p, page_index) {
        Err(ErrorCode::InvalidCursor)
    } else if claimed_base != 0 {
        Err(ErrorCode::BaseFeesObserved)
    } else {
        let day_start: int = if page_index == 0 {
            now_ts
        } else {
            p.day_start_ts as int
        };
        let cursor_base: int = if page_index == 0 {
            0
        } else {
            p.cursor as int
        };
        let records_base: Seq<PageRecord> = if page_index == 0 {
            Seq::<PageRecord>::empty()
        } else {
            p.page_records
        };
        let snapshot = spec_snapshot_base(p, page_index, treasury_balance);
        let cumulative = spec_cumulative_base(p, page_index);
        let lt = spec_locked_total(investors);
        let effective = spec_effective_claimed(claimed_quote, treasury_balance, snapshot);
        let ifq = spec_investor_fee_quote(policy, effective, lt, cumulative);
        let page_total = spec_page_total(investors, ifq, lt, policy.min_payout as int);
        let page_dust = ifq - page_total;
        match spec_find_record(records_base, page_index) {
            Some(rec) => Ok(
                CrankStep {
                    progress: ProgressV {
                        cursor: max_i(p.cursor as int, page_index) as u64,
                        ..p
                    },
                    payouts: Seq::<PayoutEntry>::empty(),
                    fees_claimed: None,
                    payout_page: InvestorPayoutPage {
                        day_ts: p.day_start_ts,
                        page_index: page_index as u64,
                        page_total_payout: rec.distributed,
                        distributed_to_investors: rec.distributed,
                        carry_after_page: p.carry_lamports,
                    },
                    day_closed: None,
                    creator_payout: 0,
                },
            ),
            None => {
                if records_base.len() >= PAGE_RECORD_CAP {
                    Err(ErrorCode::PageRecordCapacityExceeded)
                } else if treasury_balance < page_total {
                    Err(ErrorCode::InsufficientTreasuryBalance)
                } else {
                    let new_cumulative = sat_add_u64(cumulative, page_total);
                    let carry_after_page = sat_add_u64(p.carry_lamports as int, page_dust);
                    let total_claimed = sat_sub(treasury_balance, snapshot);
                    let remainder_base = sat_sub(total_claimed, new_cumulative);
                    let remainder = if carry_after_page > 0 {
                        sat_add_u64(remainder_base, carry_after_page)
                    } else {
                        remainder_base
                    };
                    if is_last_page && remainder > 0 && treasury_balance < remainder {
                        Err(ErrorCode::InsufficientTreasuryBalance)
                    } else {
                        Ok(
                            CrankStep {
                                progress: ProgressV {
                                    vault: p.vault,
                                    day_start_ts: day_start as i64,
                                    last_distribution_ts: if is_last_page {
                                        now_ts as i64
                                    } else {
                                        p.last_distribution_ts
                                    },
                                    cumulative_distributed_today: new_cumulative as u64,
                                    carry_lamports: if is_last_page && carry_after_page > 0 {
                                        0
                                    } else {
                                        carry_after_page as u64
                                    },
                                    cursor: max_i(cursor_base, page_index) as u64,
                                    treasury_snapshot: if is_last_page {
                                        treasury_balance as u64
                                    } else {
                                        snapshot as u64
                                    },
                                    page_records: records_base.push(
                                        PageRecord {
                                            page_index: page_index as u64,
                                            distributed: page_total as u64,
                                            timestamp: now_ts as i64,
                                        },
                                    ),
                                },
                                payouts: spec_payout_entries(
                                    investors,
                                    ifq,
                                    lt,
                                    policy.min_payout as int,
                                ),
                                fees_claimed: Some(
                                    QuoteFeesClaimed {
                                        pool,
                                        position,
                                        claimed_quote: effective as u64,
                                    },
                                ),
                                payout_page: InvestorPayoutPage {
                                    day_ts: day_start as i64,
                                    page_index: page_index as u64,
                                    page_total_payout: page_total as u64,
                                    distributed_to_investors: page_total as u64,
                                    carry_after_page: carry_after_page as u64,
                                },
                                day_closed: if is_last_page {
                                    Some(
                                        CreatorPayoutDayClosed {
                                            day_ts: day_start as i64,
                                            creator_payout: remainder as u64,
                                        },
                                    )
                                } else {
                                    None
                                },
                                creator_payout: if is_last_page && remainder > 0 {
                                    remainder as u64
                                } else {
                                    0
                                },
                            },
                        )
                    }
                }
            },
        }
    }
}

/// The payout list of a non-replayed page: one entry per investor, or none
/// at all when the fee pool is zero.
pub open spec fn spec_payout_entries(
    investors: Seq<InvestorInput>,
    ifq: int,
    lt: int,
    min_payout: int,
) -> Seq<PayoutEntry> {
    if ifq == 0 {
        Seq::<PayoutEntry>::empty()
    } else {
        Seq::new(
            investors.len(),
            |i: int|
                PayoutEntry {
                    destination: investors[i].investor_ata,
                    amount: spec_paid_amount(
                        ifq,
                        investors[i].locked_amount as int,
                        lt,
                        min_payout,
                    ) as u64,
                },
        )
    }
}

/// Linear scan of the page ledger for an existing record of this page.
fn find_record(records: &Vec<PageRecord>, page_index: u64) -> (r: Option<PageRecord>)
    ensures
        r == spec_find_record(records@, page_index as int),
{
    let ghost s = records@;
    proof {
        assert(s.skip(0) =~= s);
    }
    let mut k: usize = 0;
    while k < records.len()
        invariant
            0 <= k <= records.len(),
            s == records@,
            spec_find_record(s, page_index as int) == spec_find_record(
                s.skip(k as int),
                page_index as int,
            ),
            forall|i: int| 0 <= i < k ==> s[i].page_index != page_index,
        decreases records.len() - k,
    {
        proof {
            assert(s.skip(k as int)[0] == s[k as int]);
            assert(s.skip(k as int).skip(1) =~= s.skip(k as int + 1));
        }
        if records[k].page_index == page_index {
            return Some(records[k]);
        }
        k = k + 1;
    }
    proof {
        assert(s.skip(k as int).len() == 0);
    }
    None
}

/// Group the host-supplied account list into (stream, payout destination)
/// pairs, in order. An unpaired trailing account aborts the whole page: the
/// engine never processes a partial investor row.
pub fn pair_investor_accounts(accounts: &Vec<AccountId>) -> (r: Result<
    Vec<(AccountId, AccountId)>,
    ErrorCode,
>)
    ensures
        accounts@.len() % 2 == 0 ==> (r matches Ok(pairs) && pairs@.len() == accounts@.len() / 2
            && forall|i: int|
            0 <= i < pairs@.len() ==> pairs@[i] == (accounts@[2 * i], accounts@[2 * i + 1])),
        accounts@.len() % 2 != 0 ==> r == Err::<Vec<(AccountId, AccountId)>, ErrorCode>(
            ErrorCode::MissingInvestorAccount,
        ),
{
    if accounts.len() % 2 != 0 {
        return Err(ErrorCode::MissingInvestorAccount);
    }
    let mut pairs: Vec<(AccountId, AccountId)> = Vec::new();
    let mut k: usize = 0;
    while k + 1 < accounts.len()
        invariant
            accounts@.len() % 2 == 0,
            k % 2 == 0,
            k <= accounts@.len(),
            pairs@.len() == k / 2,
            forall|i: int|
                0 <= i < pairs@.len() ==> pairs@[i] == (accounts@[2 * i], accounts@[2 * i + 1]),
        decreases accounts.len() - k,
    {
        pairs.push((accounts[k], accounts[k + 1]));
        k = k + 2;
    }
    Ok(pairs)
}

/// Advance the distribution by one page.
///
/// The invocation either fails with the error `spec_crank` names, leaving
/// the checkpoint untouched, or commits exactly the transition `spec_crank`
/// describes and returns the transfers and events of that transition.
pub fn crank_distribute(
    policy: &Policy,
    progress: &mut Progress,
    pool: AccountId,
    position: AccountId,
    now_ts: i64,
    page_index: u64,
    is_last_page: bool,
    claimed_quote: u64,
    claimed_base: u64,
    treasury_balance: u64,
    investors: &Vec<InvestorInput>,
) -> (r: Result<CrankOutcome, ErrorCode>)
    requires
        wf_policy(*policy),
        wf_progress(old(progress)@),
        0 <= now_ts <= i64::MAX - DAY_SECONDS,
    ensures
        wf_progress(final(progress)@),
        ({
            let step = spec_crank(
                *policy,
                old(progress)@,
                pool,
                position,
                now_ts as int,
                page_index as int,
                is_last_page,
                claimed_quote as int,
                claimed_base as int,
                treasury_balance as int,
                investors@,
            );
            match step {
                Err(e) => r == Err::<CrankOutcome, ErrorCode>(e) && *final(progress) == *old(
                    progress,
                ),
                Ok(s) => r matches Ok(outcome) && final(progress)@ == s.progress
                    && outcome.payouts@ == s.payouts && outcome.fees_claimed == s.fees_claimed
                    && outcome.payout_page == s.payout_page && outcome.day_closed == s.day_closed
                    && outcome.creator_payout == s.creator_payout,
            }
        }),
{
    let ghost p0 = progress@;
    // 1. Day/window gate.
    if page_index == 0 {
        if progress.last_distribution_ts != 0 && now_ts < progress.last_distribution_ts
            + DAY_SECONDS {
            return Err(ErrorCode::DayWindowNotElapsed);
        }
    } else {
        if now_ts >= progress.day_start_ts + DAY_SECONDS {
            return Err(ErrorCode::DayWindowNotElapsed);
        }
        if page_index != progress.cursor && !(progress.cursor < u64::MAX && page_index
            == progress.cursor + 1) {
            return Err(ErrorCode::InvalidCursor);
        }
    }
    // 2. Quote-only enforcement.
    if claimed_base != 0 {
        return Err(ErrorCode::BaseFeesObserved);
    }
    // 3. Effective newly-claimed amount, against the day's opening snapshot.
    let snapshot: u64 = if page_index == 0 {
        treasury_balance
    } else {
        progress.treasury_snapshot
    };
    let cumulative: u64 = if page_index == 0 {
        0
    } else {
        progress.cumulative_distributed_today
    };
    let effective: u64 = max64(claimed_quote, sat_sub64(treasury_balance, snapshot));
    // 4. Eligibility and fee pool.
    let lt: u128 = locked_total(investors);
    let flocked: u64 = f_locked_bps(lt, policy.y0);
    let eligible: u64 = min64(policy.investor_fee_share_bps as u64, flocked);
    let raw_quote: u64 = fee_quote_raw(effective, eligible);
    let capped: u64 = match policy.daily_cap {
        Some(cap) => min64(raw_quote, sat_sub64(cap, cumulative)),
        None => raw_quote,
    };
    let ifq: u64 = if lt == 0 {
        0
    } else {
        capped
    };
    proof {
        assert(ifq as int == spec_investor_fee_quote(
            *policy,
            effective as int,
            lt as int,
            cumulative as int,
        ));
    }
    // 5. Idempotent replay: a page already recorded today is re-acknowledged
    //    without any transfer.
    if page_index != 0 {
        let replayed = find_record(&progress.page_records, page_index);
        match replayed {
            Some(rec) => {
                let event = InvestorPayoutPage {
                    day_ts: progress.day_start_ts,
                    page_index,
                    page_total_payout: rec.distributed,
                    distributed_to_investors: rec.distributed,
                    carry_after_page: progress.carry_lamports,
                };
                if page_index > progress.cursor {
                    progress.cursor = page_index;
                }
                return Ok(
                    CrankOutcome {
                        payouts: Vec::new(),
                        fees_claimed: None,
                        payout_page: event,
                        day_closed: None,
                        creator_payout: 0,
                    },
                );
            },
            None => {},
        }
    }
    // 6. Per-investor payouts.
    let (payouts, page_total, page_dust) = compute_page_payouts(
        investors,
        ifq,
        lt,
        policy.min_payout,
    );
    // 7. Capacity and balance checks, all before any mutation.
    let records_len: usize = if page_index == 0 {
        0
    } else {
        progress.page_records.len()
    };
    if records_len >= PAGE_RECORD_CAP {
        return Err(ErrorCode::PageRecordCapacityExceeded);
    }
    if treasury_balance < page_total {
        return Err(ErrorCode::InsufficientTreasuryBalance);
    }
    let new_cumulative: u64 = sat_add64(cumulative, page_total);
    let carry_after_page: u64 = sat_add64(progress.carry_lamports, page_dust);
    let total_claimed: u64 = sat_sub64(treasury_balance, snapshot);
    let remainder_base: u64 = sat_sub64(total_claimed, new_cumulative);
    let remainder: u64 = if carry_after_page > 0 {
        sat_add64(remainder_base, carry_after_page)
    } else {
        remainder_base
    };
    if is_last_page && remainder > 0 && treasury_balance < remainder {
        return Err(ErrorCode::InsufficientTreasuryBalance);
    }
    // 8. Commit the checkpoint.
    if page_index == 0 {
        progress.day_start_ts = now_ts;
        progress.cursor = 0;
        progress.page_records.clear();
    }
    proof {
        lemma_find_record_none(progress.page_records@, page_index as int);
    }
    progress.cumulative_distributed_today = new_cumulative;
    progress.carry_lamports = carry_after_page;
    progress.page_records.push(
        PageRecord { page_index, distributed: page_total, timestamp: now_ts },
    );
    if page_index > progress.cursor {
        progress.cursor = page_index;
    }
    progress.treasury_snapshot = snapshot;
    let event = InvestorPayoutPage {
        day_ts: if page_index == 0 {
            now_ts
        } else {
            progress.day_start_ts
        },
        page_index,
        page_total_payout: page_total,
        distributed_to_investors: page_total,
        carry_after_page,
    };
    // 9. Day close: route the remainder (and carry) to the creator once.
    let mut day_closed: Option<CreatorPayoutDayClosed> = None;
    let mut creator_payout: u64 = 0;
    if is_last_page {
        if carry_after_page > 0 {
            progress.carry_lamports = 0;
        }
        if remainder > 0 {
            creator_payout = remainder;
        }
        progress.last_distribution_ts = now_ts;
        progress.treasury_snapshot = treasury_balance;
        day_closed = Some(
            CreatorPayoutDayClosed { day_ts: progress.day_start_ts, creator_payout: remainder },
        );
    }
    proof {
        let entries = spec_payout_entries(
            investors@,
            ifq as int,
            lt as int,
            policy.min_payout as int,
        );
        assert(forall|i: int| 0 <= i < payouts@.len() ==> payouts@[i] == entries[i]);
        assert(payouts@ =~= entries);
        let step = spec_crank(
            *policy,
            p0,
            pool,
            position,
            now_ts as int,
            page_index as int,
            is_last_page,
            claimed_quote as int,
            claimed_base as int,
            treasury_balance as int,
            investors@,
        );
        assert(step is Ok);
        assert(progress@ =~= step.unwrap().progress);
    }
    Ok(
        CrankOutcome {
            payouts,
            fees_claimed: Some(QuoteFeesClaimed { pool, position, claimed_quote: effective }),
            payout_page: event,
            day_closed,
            creator_payout,
        },
    )
}

} // verus!
