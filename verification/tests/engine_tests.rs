use honorary_fee_position::engine::crank_distribute;
use honorary_fee_position::init::initialize_honorary_position;
use honorary_fee_position::types::{AccountId, ErrorCode, InvestorInput, Policy, Progress};

fn acct(id: u64) -> AccountId {
    AccountId { id }
}

fn investor(stream: u64, ata: u64, locked: u64) -> InvestorInput {
    InvestorInput {
        stream_pubkey: acct(stream),
        investor_ata: acct(ata),
        locked_amount: locked,
    }
}

fn setup(
    y0: u128,
    fee_share_bps: u16,
    daily_cap: Option<u64>,
    min_payout: u64,
    treasury: u64,
) -> (Policy, Progress) {
    let r = initialize_honorary_position(
        acct(1),
        acct(2),
        acct(3),
        acct(4),
        acct(5),
        treasury,
        y0,
        fee_share_bps,
        daily_cap,
        min_payout,
        0,
    );
    let (policy, progress, _event) = r.expect("valid setup");
    (policy, progress)
}

const DAY: i64 = 86_400;

#[test]
fn pro_rata_two_investors() {
    // y0 = 1_000_000, locked 300_000 + 200_000, fee share 8000 bps,
    // claimed 100_000: f_locked 5000, eligible 5000, fee pool 50_000,
    // payouts 30_000 / 20_000, no dust.
    let (policy, mut progress) = setup(1_000_000, 8000, None, 0, 500_000);
    let investors = vec![investor(10, 11, 300_000), investor(12, 13, 200_000)];
    let out = crank_distribute(
        &policy,
        &mut progress,
        acct(2),
        acct(3),
        1_000,
        0,
        false,
        100_000,
        0,
        500_000,
        &investors,
    )
    .expect("page succeeds");
    assert_eq!(out.payouts.len(), 2);
    assert_eq!(out.payouts[0].destination, acct(11));
    assert_eq!(out.payouts[0].amount, 30_000);
    assert_eq!(out.payouts[1].destination, acct(13));
    assert_eq!(out.payouts[1].amount, 20_000);
    assert_eq!(out.payout_page.page_total_payout, 50_000);
    assert_eq!(out.payout_page.carry_after_page, 0);
    assert_eq!(out.payout_page.day_ts, 1_000);
    assert_eq!(progress.cumulative_distributed_today, 50_000);
    assert_eq!(progress.carry_lamports, 0);
    assert_eq!(progress.cursor, 0);
    assert_eq!(progress.day_start_ts, 1_000);
    assert_eq!(progress.page_records.len(), 1);
    assert_eq!(progress.page_records[0].page_index, 0);
    assert_eq!(progress.page_records[0].distributed, 50_000);
    let ev = out.fees_claimed.expect("claim event");
    assert_eq!(ev.claimed_quote, 100_000);
}

#[test]
fn min_payout_suppresses_to_dust() {
    // Same inputs with min_payout 25_000: the 20_000 payout is suppressed,
    // page total 30_000, dust 20_000.
    let (policy, mut progress) = setup(1_000_000, 8000, None, 25_000, 500_000);
    let investors = vec![investor(10, 11, 300_000), investor(12, 13, 200_000)];
    let out = crank_distribute(
        &policy,
        &mut progress,
        acct(2),
        acct(3),
        1_000,
        0,
        false,
        100_000,
        0,
        500_000,
        &investors,
    )
    .expect("page succeeds");
    assert_eq!(out.payouts.len(), 2);
    assert_eq!(out.payouts[0].amount, 30_000);
    assert_eq!(out.payouts[1].amount, 0);
    assert_eq!(out.payout_page.page_total_payout, 30_000);
    assert_eq!(out.payout_page.carry_after_page, 20_000);
    assert_eq!(progress.cumulative_distributed_today, 30_000);
    assert_eq!(progress.carry_lamports, 20_000);
}

#[test]
fn page_conserves_fee_pool() {
    // Conservation: page_total + dust == fee pool, with rounding leftovers
    // folded into dust. Three investors with awkward shares of 10_000.
    let (policy, mut progress) = setup(300, 10_000, None, 0, 500_000);
    let investors = vec![
        investor(10, 11, 100),
        investor(12, 13, 100),
        investor(14, 15, 100),
    ];
    let out = crank_distribute(
        &policy,
        &mut progress,
        acct(2),
        acct(3),
        1_000,
        0,
        false,
        10_000,
        0,
        500_000,
        &investors,
    )
    .expect("page succeeds");
    // each share: floor(10_000 * 100 / 300) = 3_333; leftover 1 becomes dust
    assert_eq!(out.payouts[0].amount, 3_333);
    assert_eq!(out.payouts[1].amount, 3_333);
    assert_eq!(out.payouts[2].amount, 3_333);
    assert_eq!(out.payout_page.page_total_payout, 9_999);
    assert_eq!(out.payout_page.carry_after_page, 1);
    assert_eq!(
        out.payout_page.page_total_payout + progress.carry_lamports,
        10_000
    );
}

#[test]
fn daily_cap_clamps_fee_pool() {
    // Raw fee pool 50_000, cap 40_000: clamped before the split.
    let (policy, mut progress) = setup(1_000_000, 8000, Some(40_000), 0, 500_000);
    let investors = vec![investor(10, 11, 300_000), investor(12, 13, 200_000)];
    let out = crank_distribute(
        &policy,
        &mut progress,
        acct(2),
        acct(3),
        1_000,
        0,
        false,
        100_000,
        0,
        500_000,
        &investors,
    )
    .expect("page succeeds");
    assert_eq!(out.payouts[0].amount, 24_000);
    assert_eq!(out.payouts[1].amount, 16_000);
    assert_eq!(out.payout_page.page_total_payout, 40_000);
    assert_eq!(progress.cumulative_distributed_today, 40_000);
}

#[test]
fn cap_never_exceeded_across_pages() {
    // After the cap is reached, a further page distributes nothing.
    let (policy, mut progress) = setup(1_000_000, 8000, Some(40_000), 0, 500_000);
    let investors = vec![investor(10, 11, 300_000), investor(12, 13, 200_000)];
    crank_distribute(
        &policy,
        &mut progress,
        acct(2),
        acct(3),
        1_000,
        0,
        false,
        100_000,
        0,
        500_000,
        &investors,
    )
    .expect("page 0 succeeds");
    assert_eq!(progress.cumulative_distributed_today, 40_000);
    let out = crank_distribute(
        &policy,
        &mut progress,
        acct(2),
        acct(3),
        2_000,
        1,
        false,
        100_000,
        0,
        500_000,
        &investors,
    )
    .expect("page 1 succeeds");
    assert_eq!(out.payout_page.page_total_payout, 0);
    assert_eq!(progress.cumulative_distributed_today, 40_000);
}

#[test]
fn zero_locked_routes_everything_to_creator() {
    // locked_total == 0 forces the fee pool to 0; at day close the whole
    // treasury growth goes to the creator.
    let (policy, mut progress) = setup(1_000_000, 8000, None, 0, 100_000);
    let investors = vec![investor(10, 11, 0)];
    let out0 = crank_distribute(
        &policy,
        &mut progress,
        acct(2),
        acct(3),
        1_000,
        0,
        false,
        100_000,
        0,
        100_000,
        &investors,
    )
    .expect("page 0 succeeds");
    assert_eq!(out0.payout_page.page_total_payout, 0);
    assert_eq!(progress.cumulative_distributed_today, 0);
    // the claim lands in the treasury before the closing page
    let out1 = crank_distribute(
        &policy,
        &mut progress,
        acct(2),
        acct(3),
        2_000,
        1,
        true,
        0,
        0,
        200_000,
        &investors,
    )
    .expect("closing page succeeds");
    assert_eq!(out1.creator_payout, 100_000);
    let closed = out1.day_closed.expect("day closed");
    assert_eq!(closed.creator_payout, 100_000);
    assert_eq!(progress.last_distribution_ts, 2_000);
}

#[test]
fn replay_of_recorded_page_transfers_nothing() {
    // Replay of a recorded page 1: no transfers, the recorded totals are
    // re-emitted, the cursor stays where it was.
    let (policy, mut progress) = setup(1_000_000, 8000, None, 0, 500_000);
    let investors = vec![investor(10, 11, 300_000), investor(12, 13, 200_000)];
    crank_distribute(
        &policy,
        &mut progress,
        acct(2),
        acct(3),
        1_000,
        0,
        false,
        100_000,
        0,
        500_000,
        &investors,
    )
    .expect("page 0 succeeds");
    let first = crank_distribute(
        &policy,
        &mut progress,
        acct(2),
        acct(3),
        2_000,
        1,
        false,
        0,
        0,
        450_000,
        &investors,
    )
    .expect("page 1 succeeds");
    let snapshot = progress.clone();
    let replay = crank_distribute(
        &policy,
        &mut progress,
        acct(2),
        acct(3),
        2_000,
        1,
        false,
        0,
        0,
        450_000,
        &investors,
    )
    .expect("replay succeeds");
    assert_eq!(replay.payouts.len(), 0);
    assert!(replay.fees_claimed.is_none());
    assert!(replay.day_closed.is_none());
    assert_eq!(replay.creator_payout, 0);
    assert_eq!(replay.payout_page, first.payout_page);
    assert_eq!(progress, snapshot);
    assert_eq!(progress.cursor, 1);
}

#[test]
fn base_fees_abort_without_mutation() {
    // Quote-only guarantee: a claim reporting base fees fails and changes
    // nothing.
    let (policy, mut progress) = setup(1_000_000, 8000, None, 0, 500_000);
    let investors = vec![investor(10, 11, 300_000)];
    let before = progress.clone();
    let r = crank_distribute(
        &policy,
        &mut progress,
        acct(2),
        acct(3),
        1_000,
        0,
        false,
        50_000,
        25_000,
        500_000,
        &investors,
    );
    assert_eq!(r.unwrap_err(), ErrorCode::BaseFeesObserved);
    assert_eq!(progress, before);
}

#[test]
fn window_gate_blocks_early_new_day() {
    // A page-0 crank before 24h since the last distribution fails with no
    // mutation; at exactly 24h it succeeds and resets the day state.
    let (policy, mut progress) = setup(1_000_000, 8000, None, 0, 500_000);
    let investors = vec![investor(10, 11, 300_000)];
    crank_distribute(
        &policy,
        &mut progress,
        acct(2),
        acct(3),
        1_000,
        0,
        true,
        100_000,
        0,
        500_000,
        &investors,
    )
    .expect("first day closes");
    assert_eq!(progress.last_distribution_ts, 1_000);
    let before = progress.clone();
    let early = crank_distribute(
        &policy,
        &mut progress,
        acct(2),
        acct(3),
        1_000 + DAY - 1,
        0,
        false,
        100_000,
        0,
        500_000,
        &investors,
    );
    assert_eq!(early.unwrap_err(), ErrorCode::DayWindowNotElapsed);
    assert_eq!(progress, before);
    let on_time = crank_distribute(
        &policy,
        &mut progress,
        acct(2),
        acct(3),
        1_000 + DAY,
        0,
        false,
        100_000,
        0,
        500_000,
        &investors,
    );
    assert!(on_time.is_ok());
    assert_eq!(progress.day_start_ts, 1_000 + DAY);
    assert_eq!(progress.cursor, 0);
    assert_eq!(progress.page_records.len(), 1);
}

#[test]
fn stale_page_is_rejected_same_day() {
    // A later page must be the current page or the next one.
    let (policy, mut progress) = setup(1_000_000, 8000, None, 0, 500_000);
    let investors = vec![investor(10, 11, 300_000)];
    crank_distribute(
        &policy,
        &mut progress,
        acct(2),
        acct(3),
        1_000,
        0,
        false,
        100_000,
        0,
        500_000,
        &investors,
    )
    .expect("page 0 succeeds");
    let before = progress.clone();
    let r = crank_distribute(
        &policy,
        &mut progress,
        acct(2),
        acct(3),
        2_000,
        2,
        false,
        0,
        0,
        500_000,
        &investors,
    );
    assert_eq!(r.unwrap_err(), ErrorCode::InvalidCursor);
    assert_eq!(progress, before);
}

#[test]
fn later_page_outside_day_window_fails() {
    let (policy, mut progress) = setup(1_000_000, 8000, None, 0, 500_000);
    let investors = vec![investor(10, 11, 300_000)];
    crank_distribute(
        &policy,
        &mut progress,
        acct(2),
        acct(3),
        1_000,
        0,
        false,
        100_000,
        0,
        500_000,
        &investors,
    )
    .expect("page 0 succeeds");
    let r = crank_distribute(
        &policy,
        &mut progress,
        acct(2),
        acct(3),
        1_000 + DAY,
        1,
        false,
        0,
        0,
        500_000,
        &investors,
    );
    assert_eq!(r.unwrap_err(), ErrorCode::DayWindowNotElapsed);
}

#[test]
fn insufficient_treasury_aborts_page() {
    // The computed payouts exceed what the treasury holds: abort, nothing
    // changes.
    let (policy, mut progress) = setup(1_000_000, 8000, None, 0, 10_000);
    let investors = vec![investor(10, 11, 300_000), investor(12, 13, 200_000)];
    let before = progress.clone();
    let r = crank_distribute(
        &policy,
        &mut progress,
        acct(2),
        acct(3),
        1_000,
        0,
        false,
        100_000,
        0,
        10_000,
        &investors,
    );
    assert_eq!(r.unwrap_err(), ErrorCode::InsufficientTreasuryBalance);
    assert_eq!(progress, before);
}

#[test]
fn page_ledger_capacity_is_enforced() {
    // 50 pages fill the day's ledger; the 51st page of the day is rejected.
    let (policy, mut progress) = setup(1_000_000, 8000, None, 0, 1_000_000);
    let investors = vec![investor(10, 11, 100)];
    for page in 0..50u64 {
        crank_distribute(
            &policy,
            &mut progress,
            acct(2),
            acct(3),
            1_000,
            page,
            false,
            0,
            0,
            1_000_000,
            &investors,
        )
        .expect("page succeeds");
    }
    assert_eq!(progress.page_records.len(), 50);
    let r = crank_distribute(
        &policy,
        &mut progress,
        acct(2),
        acct(3),
        1_000,
        50,
        false,
        0,
        0,
        1_000_000,
        &investors,
    );
    assert_eq!(r.unwrap_err(), ErrorCode::PageRecordCapacityExceeded);
}

#[test]
fn daily_conservation_over_full_day() {
    // Over a whole day: sum of page totals + creator payout == treasury
    // growth (claims) plus nothing lost to rounding.
    let (policy, mut progress) = setup(1_000_000, 10_000, None, 0, 100_000);
    let investors_a = vec![investor(10, 11, 300_000), investor(12, 13, 200_000)];
    let investors_b = vec![investor(14, 15, 70_000), investor(16, 17, 30_000)];
    // page 0: treasury 100_000, claim 60_000 reported and deposited out of
    // band earlier, so balance already includes it
    let out0 = crank_distribute(
        &policy,
        &mut progress,
        acct(2),
        acct(3),
        1_000,
        0,
        false,
        60_000,
        0,
        100_000,
        &investors_a,
    )
    .expect("page 0 succeeds");
    // f_locked 5000 of y0, eligible 5000: pool 30_000 -> 18_000 + 12_000
    assert_eq!(out0.payout_page.page_total_payout, 30_000);
    // page 1 closes the day; the page-0 claim (60_000) has landed while
    // 30_000 was paid out: balance 100_000 + 60_000 - 30_000 = 130_000
    let out1 = crank_distribute(
        &policy,
        &mut progress,
        acct(2),
        acct(3),
        2_000,
        1,
        true,
        0,
        0,
        130_000,
        &investors_b,
    )
    .expect("closing page succeeds");
    // claim seen this day: 130_000 - 100_000 = 30_000; eligible share is
    // limited by the small page-1 locked total (100_000 of 1_000_000):
    // f_locked 1000 bps -> pool 3_000 -> 2_100 + 900
    assert_eq!(out1.payout_page.page_total_payout, 3_000);
    let distributed = progress.cumulative_distributed_today;
    assert_eq!(distributed, 33_000);
    // remainder: 30_000 - 33_000 saturates to 0, nothing for the creator
    // beyond what the pages paid; all dust was zero
    assert_eq!(out1.creator_payout, 0);
    assert_eq!(progress.carry_lamports, 0);
}

#[test]
fn day_close_pays_remainder_and_carry() {
    // Dust carried during the day is folded into the creator payout at
    // close, leaving carry at zero.
    let (policy, mut progress) = setup(1_000_000, 8000, None, 25_000, 500_000);
    let investors = vec![investor(10, 11, 300_000), investor(12, 13, 200_000)];
    let out = crank_distribute(
        &policy,
        &mut progress,
        acct(2),
        acct(3),
        1_000,
        0,
        true,
        100_000,
        0,
        500_000,
        &investors,
    )
    .expect("closing page succeeds");
    // pool 50_000: 30_000 paid, 20_000 suppressed to dust; at close the
    // treasury delta is 0 (page-0 snapshot), so the creator gets the carry
    assert_eq!(out.payout_page.page_total_payout, 30_000);
    assert_eq!(out.creator_payout, 20_000);
    assert_eq!(progress.carry_lamports, 0);
    assert_eq!(progress.treasury_snapshot, 500_000);
    assert_eq!(progress.last_distribution_ts, 1_000);
}

#[test]
fn cursor_is_monotone_within_day() {
    let (policy, mut progress) = setup(1_000_000, 8000, None, 0, 500_000);
    let investors = vec![investor(10, 11, 100)];
    let mut last_cursor = 0u64;
    for page in 0..5u64 {
        crank_distribute(
            &policy,
            &mut progress,
            acct(2),
            acct(3),
            1_000,
            page,
            false,
            0,
            0,
            500_000,
            &investors,
        )
        .expect("page succeeds");
        assert!(progress.cursor >= last_cursor);
        last_cursor = progress.cursor;
    }
    assert_eq!(progress.cursor, 4);
}

#[test]
fn empty_investor_page_distributes_nothing() {
    let (policy, mut progress) = setup(1_000_000, 8000, None, 0, 500_000);
    let investors: Vec<InvestorInput> = Vec::new();
    let out = crank_distribute(
        &policy,
        &mut progress,
        acct(2),
        acct(3),
        1_000,
        0,
        false,
        100_000,
        0,
        500_000,
        &investors,
    )
    .expect("page succeeds");
    assert_eq!(out.payouts.len(), 0);
    assert_eq!(out.payout_page.page_total_payout, 0);
    assert_eq!(progress.cumulative_distributed_today, 0);
}
