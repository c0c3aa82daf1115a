//! Per-investor payout computation: pro-rata floor division, minimum-payout
//! dust suppression, and exact conservation of the page's fee pool.

use vstd::prelude::*;
use vstd::arithmetic::div_mod::{
    lemma_div_of0, lemma_fundamental_div_mod, lemma_remainder_lower, lemma_remainder_upper,
    lemma_multiply_divide_le,
};
use vstd::arithmetic::mul::{lemma_mul_inequality, lemma_mul_is_distributive_add_other_way};
use crate::types::{InvestorInput, PayoutEntry};

verus! {

/// Sum of the locked amounts of an investor set.
pub open spec fn spec_locked_total(investors: Seq<InvestorInput>) -> int
    decreases investors.len(),
{
    if investors.len() == 0 {
        0
    } else {
        spec_locked_total(investors.drop_last()) + investors.last().locked_amount
    }
}

/// Floor share of `ifq` owed to an investor with `locked` of `locked_total`
/// (0 when there is nothing locked).
pub open spec fn spec_raw_payout(ifq: int, locked: int, locked_total: int) -> int {
    if locked_total <= 0 {
        0
    } else {
        ifq * locked / locked_total
    }
}

/// The amount actually paid: the floor share, or 0 when it is below the
/// minimum payout.
pub open spec fn spec_paid_amount(ifq: int, locked: int, locked_total: int, min_payout: int) -> int {
    if spec_raw_payout(ifq, locked, locked_total) < min_payout {
        0
    } else {
        spec_raw_payout(ifq, locked, locked_total)
    }
}

/// The amount withheld as dust: the floor share when it is below the
/// minimum payout, else 0.
pub open spec fn spec_suppressed_amount(
    ifq: int,
    locked: int,
    locked_total: int,
    min_payout: int,
) -> int {
    if spec_raw_payout(ifq, locked, locked_total) < min_payout {
        spec_raw_payout(ifq, locked, locked_total)
    } else {
        0
    }
}

/// Sum of the amounts paid out over a page.
pub open spec fn spec_page_total(
    investors: Seq<InvestorInput>,
    ifq: int,
    locked_total: int,
    min_payout: int,
) -> int
    decreases investors.len(),
{
    if investors.len() == 0 {
        0
    } else {
        spec_page_total(investors.drop_last(), ifq, locked_total, min_payout)
            + spec_paid_amount(ifq, investors.last().locked_amount as int, locked_total, min_payout)
    }
}

/// Sum of the amounts suppressed to dust over a page.
pub open spec fn spec_page_suppressed(
    investors: Seq<InvestorInput>,
    ifq: int,
    locked_total: int,
    min_payout: int,
) -> int
    decreases investors.len(),
{
    if investors.len() == 0 {
        0
    } else {
        spec_page_suppressed(investors.drop_last(), ifq, locked_total, min_payout)
            + spec_suppressed_amount(
            ifq,
            investors.last().locked_amount as int,
            locked_total,
            min_payout,
        )
    }
}

/// Sum of the floor shares over a page (paid and suppressed together).
pub open spec fn spec_sum_raw(investors: Seq<InvestorInput>, ifq: int, locked_total: int) -> int
    decreases investors.len(),
{
    if investors.len() == 0 {
        0
    } else {
        spec_sum_raw(investors.drop_last(), ifq, locked_total)
            + spec_raw_payout(ifq, investors.last().locked_amount as int, locked_total)
    }
}

pub proof fn lemma_locked_total_nonneg(investors: Seq<InvestorInput>)
    ensures
        0 <= spec_locked_total(investors),
    decreases investors.len(),
{
    if investors.len() > 0 {
        lemma_locked_total_nonneg(investors.drop_last());
    }
}

/// Extending a prefix by one investor extends each of the page sums by that
/// investor's contribution.
pub proof fn lemma_page_sums_take_succ(
    investors: Seq<InvestorInput>,
    k: int,
    ifq: int,
    locked_total: int,
    min_payout: int,
)
    requires
        0 <= k < investors.len(),
    ensures
        spec_locked_total(investors.take(k + 1)) == spec_locked_total(investors.take(k))
            + investors[k].locked_amount,
        spec_page_total(investors.take(k + 1), ifq, locked_total, min_payout) == spec_page_total(
            investors.take(k),
            ifq,
            locked_total,
            min_payout,
        ) + spec_paid_amount(ifq, investors[k].locked_amount as int, locked_total, min_payout),
        spec_page_suppressed(investors.take(k + 1), ifq, locked_total, min_payout)
            == spec_page_suppressed(investors.take(k), ifq, locked_total, min_payout)
            + spec_suppressed_amount(
            ifq,
            investors[k].locked_amount as int,
            locked_total,
            min_payout,
        ),
        spec_sum_raw(investors.take(k + 1), ifq, locked_total) == spec_sum_raw(
            investors.take(k),
            ifq,
            locked_total,
        ) + spec_raw_payout(ifq, investors[k].locked_amount as int, locked_total),
{
    assert(investors.take(k + 1).drop_last() =~= investors.take(k));
    assert(investors.take(k + 1).last() == investors[k]);
}

/// A prefix of the investor set carries at most the whole locked total.
pub proof fn lemma_locked_prefix_le(investors: Seq<InvestorInput>, k: int)
    requires
        0 <= k <= investors.len(),
    ensures
        spec_locked_total(investors.take(k)) <= spec_locked_total(investors),
    decreases investors.len() - k,
{
    if k == investors.len() {
        assert(investors.take(k) =~= investors);
    } else {
        lemma_page_sums_take_succ(investors, k, 0, 0, 0);
        lemma_locked_prefix_le(investors, k + 1);
    }
}

/// The floor shares of a page sum to at most the exact pro-rata total:
/// `spec_sum_raw * locked_total <= ifq * spec_locked_total`.
pub proof fn lemma_sum_raw_mul_bound(investors: Seq<InvestorInput>, ifq: int, locked_total: int)
    requires
        0 <= ifq,
        0 < locked_total,
    ensures
        0 <= spec_sum_raw(investors, ifq, locked_total),
        spec_sum_raw(investors, ifq, locked_total) * locked_total <= ifq * spec_locked_total(
            investors,
        ),
    decreases investors.len(),
{
    if investors.len() == 0 {
    } else {
        let prefix = investors.drop_last();
        let l = investors.last().locked_amount as int;
        let s0 = spec_sum_raw(prefix, ifq, locked_total);
        let raw = spec_raw_payout(ifq, l, locked_total);
        lemma_sum_raw_mul_bound(prefix, ifq, locked_total);
        // raw >= 0 and raw * locked_total <= ifq * l
        lemma_fundamental_div_mod(ifq * l, locked_total);
        lemma_remainder_lower(ifq * l, locked_total);
        lemma_remainder_upper(ifq * l, locked_total);
        assert(ifq * l >= 0) by (nonlinear_arith)
            requires
                ifq >= 0,
                l >= 0,
        ;
        assert(raw >= 0) by (nonlinear_arith)
            requires
                ifq * l == locked_total * raw + (ifq * l) % locked_total,
                (ifq * l) % locked_total < locked_total,
                ifq * l >= 0,
                locked_total > 0,
        ;
        assert(raw * locked_total <= ifq * l) by (nonlinear_arith)
            requires
                ifq * l == locked_total * raw + (ifq * l) % locked_total,
                (ifq * l) % locked_total >= 0,
        ;
        lemma_mul_is_distributive_add_other_way(locked_total, s0, raw);
        assert((s0 + raw) * locked_total == s0 * locked_total + raw * locked_total);
        assert(ifq * (spec_locked_total(prefix) + l) == ifq * spec_locked_total(prefix) + ifq * l)
            by (nonlinear_arith);
    }
}

/// Paid and suppressed amounts partition the floor shares.
pub proof fn lemma_total_plus_suppressed(
    investors: Seq<InvestorInput>,
    ifq: int,
    locked_total: int,
    min_payout: int,
)
    ensures
        spec_page_total(investors, ifq, locked_total, min_payout) + spec_page_suppressed(
            investors,
            ifq,
            locked_total,
            min_payout,
        ) == spec_sum_raw(investors, ifq, locked_total),
    decreases investors.len(),
{
    if investors.len() > 0 {
        lemma_total_plus_suppressed(investors.drop_last(), ifq, locked_total, min_payout);
    }
}

/// With a zero fee pool every floor share is zero, so nothing is paid and
/// nothing is suppressed.
pub proof fn lemma_page_sums_zero_quote(
    investors: Seq<InvestorInput>,
    locked_total: int,
    min_payout: int,
)
    ensures
        spec_page_total(investors, 0, locked_total, min_payout) == 0,
        spec_page_suppressed(investors, 0, locked_total, min_payout) == 0,
    decreases investors.len(),
{
    if investors.len() > 0 {
        lemma_page_sums_zero_quote(investors.drop_last(), locked_total, min_payout);
        let l = investors.last().locked_amount as int;
        assert(0 * l == 0) by (nonlinear_arith);
        if locked_total > 0 {
            lemma_div_of0(locked_total);
        }
    }
}

/// Sum the locked amounts of a page's investor set.
pub fn locked_total(investors: &Vec<InvestorInput>) -> (r: u128)
    ensures
        r as int == spec_locked_total(investors@),
{
    let ghost s = investors@;
    let mut r: u128 = 0;
    let mut k: usize = 0;
    while k < investors.len()
        invariant
            0 <= k <= investors.len(),
            s == investors@,
            r as int == spec_locked_total(s.take(k as int)),
            r as int <= k as int * u64::MAX as int,
        decreases investors.len() - k,
    {
        proof {
            lemma_page_sums_take_succ(s, k as int, 0, 0, 0);
        }
        r = r + (investors[k].locked_amount as u128);
        k = k + 1;
    }
    proof {
        assert(s.take(investors@.len() as int) =~= s);
    }
    r
}

/// Compute the page's payout list, total paid, and dust.
///
/// Every investor's floor share is either paid in full (when at least
/// `min_payout`) or suppressed to dust; the rounding leftover is folded into
/// dust, so `total + dust == investor_fee_quote` exactly — the page conserves
/// the fee pool.
pub fn compute_page_payouts(
    investors: &Vec<InvestorInput>,
    investor_fee_quote: u64,
    locked_total: u128,
    min_payout: u64,
) -> (out: (Vec<PayoutEntry>, u64, u64))
    requires
        locked_total as int == spec_locked_total(investors@),
        locked_total == 0 ==> investor_fee_quote == 0,
    ensures
        out.1 as int + out.2 as int == investor_fee_quote as int,
        out.1 as int == spec_page_total(
            investors@,
            investor_fee_quote as int,
            locked_total as int,
            min_payout as int,
        ),
        investor_fee_quote == 0 ==> out.0@.len() == 0,
        investor_fee_quote > 0 ==> out.0@.len() == investors@.len(),
        forall|i: int|
            0 <= i < out.0@.len() ==> out.0@[i].destination == investors@[i].investor_ata
                && out.0@[i].amount as int == spec_paid_amount(
                investor_fee_quote as int,
                investors@[i].locked_amount as int,
                locked_total as int,
                min_payout as int,
            ),
{
    let ghost s = investors@;
    let ghost ifq = investor_fee_quote as int;
    let ghost lt = locked_total as int;
    let ghost mp = min_payout as int;
    if investor_fee_quote == 0 {
        proof {
            lemma_page_sums_zero_quote(s, lt, mp);
        }
        return (Vec::new(), 0, 0);
    }
    let mut payouts: Vec<PayoutEntry> = Vec::new();
    let mut total: u64 = 0;
    let mut dust: u64 = 0;
    let mut k: usize = 0;
    while k < investors.len()
        invariant
            0 <= k <= investors.len(),
            s == investors@,
            ifq == investor_fee_quote as int,
            lt == locked_total as int,
            mp == min_payout as int,
            investor_fee_quote > 0,
            locked_total > 0,
            lt == spec_locked_total(s),
            payouts@.len() == k,
            forall|i: int|
                0 <= i < k ==> payouts@[i].destination == s[i].investor_ata
                    && payouts@[i].amount as int == spec_paid_amount(
                    ifq,
                    s[i].locked_amount as int,
                    lt,
                    mp,
                ),
            total as int == spec_page_total(s.take(k as int), ifq, lt, mp),
            dust as int == spec_page_suppressed(s.take(k as int), ifq, lt, mp),
            total as int + dust as int == spec_sum_raw(s.take(k as int), ifq, lt),
            total as int + dust as int <= ifq,
        decreases investors.len() - k,
    {
        let inv = investors[k];
        let ghost l = inv.locked_amount as int;
        proof {
            lemma_page_sums_take_succ(s, k as int, ifq, lt, mp);
            lemma_locked_prefix_le(s, k as int + 1);
            lemma_locked_total_nonneg(s.take(k as int));
            // the element's locked amount is at most the whole locked total
            assert(l <= lt);
            // the product fits in u128
            lemma_mul_inequality(ifq, u64::MAX as int, l);
            assert(u64::MAX as int * l <= u64::MAX as int * u64::MAX as int) by (nonlinear_arith)
                requires
                    0 <= l <= u64::MAX as int,
            ;
        }
        let prod: u128 = (investor_fee_quote as u128) * (inv.locked_amount as u128);
        proof {
            // the floor share is at most the whole fee pool
            lemma_mul_inequality(l, lt, ifq);
            assert(prod as int <= lt * ifq);
            lemma_multiply_divide_le(prod as int, lt, ifq);
        }
        let raw_wide: u128 = prod / locked_total;
        let raw: u64 = raw_wide as u64;
        proof {
            assert(raw as int == spec_raw_payout(ifq, l, lt));
            // the page's floor shares so far stay within the fee pool
            lemma_sum_raw_mul_bound(s.take(k as int + 1), ifq, lt);
            lemma_locked_prefix_le(s, k as int + 1);
            lemma_mul_inequality(spec_locked_total(s.take(k as int + 1)), lt, ifq);
            assert(ifq * spec_locked_total(s.take(k as int + 1)) == spec_locked_total(
                s.take(k as int + 1),
            ) * ifq) by (nonlinear_arith);
            let sr = spec_sum_raw(s.take(k as int + 1), ifq, lt);
            assert(sr <= ifq) by (nonlinear_arith)
                requires
                    sr * lt <= ifq * lt,
                    lt > 0,
            ;
            lemma_total_plus_suppressed(s.take(k as int + 1), ifq, lt, mp);
            lemma_total_plus_suppressed(s.take(k as int), ifq, lt, mp);
        }
        if raw < min_payout {
            dust = dust + raw;
            payouts.push(PayoutEntry { destination: inv.investor_ata, amount: 0 });
        } else {
            total = total + raw;
            payouts.push(PayoutEntry { destination: inv.investor_ata, amount: raw });
        }
        k = k + 1;
    }
    proof {
        assert(s.take(investors@.len() as int) =~= s);
    }
    // fold the pure rounding leftover into dust: conservation is exact
    let leftover: u64 = investor_fee_quote - total - dust;
    dust = dust + leftover;
    (payouts, total, dust)
}

} // verus!
