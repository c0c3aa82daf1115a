//! Integer arithmetic of the distribution engine: saturating helpers and the
//! eligibility / fee-pool formulas, each with an exact contract.

use vstd::prelude::*;
use vstd::arithmetic::div_mod::{
    lemma_div_is_ordered, lemma_div_multiples_vanish, lemma_fundamental_div_mod,
    lemma_multiply_divide_le, lemma_multiply_divide_lt, lemma_remainder_upper,
};
use vstd::arithmetic::mul::lemma_mul_inequality;
use crate::BPS_DENOM;

verus! {

pub open spec fn min_i(a: int, b: int) -> int {
    if a <= b {
        a
    } else {
        b
    }
}

pub open spec fn max_i(a: int, b: int) -> int {
    if a >= b {
        a
    } else {
        b
    }
}

/// `a + b`, clamped to `u64::MAX`.
pub open spec fn sat_add_u64(a: int, b: int) -> int {
    if a + b > u64::MAX {
        u64::MAX as int
    } else {
        a + b
    }
}

/// `a - b`, clamped below at zero.
pub open spec fn sat_sub(a: int, b: int) -> int {
    if a >= b {
        a - b
    } else {
        0
    }
}

/// `a * b`, clamped to `u128::MAX`.
pub open spec fn sat_mul_u128(a: int, b: int) -> int {
    if a * b > u128::MAX {
        u128::MAX as int
    } else {
        a * b
    }
}

pub fn sat_add64(a: u64, b: u64) -> (r: u64)
    ensures
        r == sat_add_u64(a as int, b as int),
{
    if a > u64::MAX - b {
        u64::MAX
    } else {
        a + b
    }
}

pub fn sat_sub64(a: u64, b: u64) -> (r: u64)
    ensures
        r == sat_sub(a as int, b as int),
{
    if a >= b {
        a - b
    } else {
        0
    }
}

pub fn min64(a: u64, b: u64) -> (r: u64)
    ensures
        r == min_i(a as int, b as int),
{
    if a <= b {
        a
    } else {
        b
    }
}

pub fn max64(a: u64, b: u64) -> (r: u64)
    ensures
        r == max_i(a as int, b as int),
{
    if a >= b {
        a
    } else {
        b
    }
}

/// Share of the reference commitment `y0` still locked, in basis points:
/// `floor(locked_total * 10_000 / y0)` clamped to 10_000, and 0 when
/// `y0 == 0`. Products beyond `u128::MAX` saturate before the division;
/// the clamp to 10_000 itself is exact because any `locked_total >= y0`
/// yields 10_000 outright.
pub open spec fn spec_f_locked_bps(locked_total: int, y0: int) -> int {
    if y0 == 0 {
        0
    } else if locked_total >= y0 {
        BPS_DENOM as int
    } else {
        sat_mul_u128(locked_total, BPS_DENOM as int) / y0
    }
}

pub fn f_locked_bps(locked_total: u128, y0: u128) -> (r: u64)
    ensures
        r == spec_f_locked_bps(locked_total as int, y0 as int),
        r <= BPS_DENOM,
        locked_total as int * BPS_DENOM as int <= u128::MAX ==> r as int == (if y0 == 0 {
            0int
        } else {
            min_i(locked_total as int * BPS_DENOM as int / y0 as int, BPS_DENOM as int)
        }),
{
    proof {
        if locked_total as int * BPS_DENOM as int <= u128::MAX {
            lemma_f_locked_bps_exact(locked_total as int, y0 as int);
        }
    }
    if y0 == 0 {
        return 0;
    }
    if locked_total >= y0 {
        return BPS_DENOM;
    }
    let bps: u128 = BPS_DENOM as u128;
    let prod: u128 = if locked_total > u128::MAX / bps {
        proof {
            // locked_total > MAX / bps implies locked_total * bps > MAX
            lemma_fundamental_div_mod(u128::MAX as int, bps as int);
            lemma_remainder_upper(u128::MAX as int, bps as int);
            lemma_mul_inequality(
                u128::MAX as int / bps as int + 1,
                locked_total as int,
                bps as int,
            );
        }
        u128::MAX
    } else {
        proof {
            // locked_total <= MAX / bps implies locked_total * bps <= MAX
            lemma_fundamental_div_mod(u128::MAX as int, bps as int);
            lemma_mul_inequality(locked_total as int, u128::MAX as int / bps as int, bps as int);
        }
        locked_total * bps
    };
    assert(prod as int == sat_mul_u128(locked_total as int, bps as int));
    let q: u128 = prod / y0;
    proof {
        // prod <= locked_total * bps < y0 * bps, hence prod / y0 < bps
        lemma_mul_inequality(locked_total as int + 1, y0 as int, bps as int);
        lemma_multiply_divide_lt(prod as int, y0 as int, bps as int);
    }
    q as u64
}

/// The exact formula of `spec_f_locked_bps` whenever the product does not
/// saturate: the clamped floor of `locked_total * 10_000 / y0`.
pub proof fn lemma_f_locked_bps_exact(locked_total: int, y0: int)
    requires
        0 <= locked_total,
        0 <= y0,
        locked_total * BPS_DENOM as int <= u128::MAX,
    ensures
        spec_f_locked_bps(locked_total, y0) == (if y0 == 0 {
            0int
        } else {
            min_i(locked_total * BPS_DENOM as int / y0, BPS_DENOM as int)
        }),
{
    let bps = BPS_DENOM as int;
    if y0 != 0 {
        if locked_total >= y0 {
            // locked_total * bps / y0 >= y0 * bps / y0 == bps
            lemma_mul_inequality(y0, locked_total, bps);
            lemma_div_multiples_vanish(bps, y0);
            lemma_div_is_ordered(y0 * bps, locked_total * bps, y0);
        } else {
            // locked_total * bps < y0 * bps, hence the quotient is below bps
            lemma_mul_inequality(locked_total + 1, y0, bps);
            lemma_multiply_divide_lt(locked_total * bps, y0, bps);
        }
    }
}

/// Investor share of the claimed amount at `eligible_bps` basis points:
/// `floor(effective_claimed * eligible_bps / 10_000)`.
pub open spec fn spec_fee_quote_raw(effective_claimed: int, eligible_bps: int) -> int {
    effective_claimed * eligible_bps / BPS_DENOM as int
}

pub fn fee_quote_raw(effective_claimed: u64, eligible_bps: u64) -> (r: u64)
    requires
        eligible_bps <= BPS_DENOM,
    ensures
        r == spec_fee_quote_raw(effective_claimed as int, eligible_bps as int),
        r <= effective_claimed,
{
    proof {
        assert(BPS_DENOM == 10_000);
        lemma_mul_inequality(eligible_bps as int, BPS_DENOM as int, effective_claimed as int);
        assert(effective_claimed as int * eligible_bps as int <= u128::MAX) by (nonlinear_arith)
            requires
                eligible_bps <= 10_000,
                effective_claimed <= u64::MAX,
        ;
    }
    let prod: u128 = (effective_claimed as u128) * (eligible_bps as u128);
    proof {
        assert(prod as int <= BPS_DENOM as int * effective_claimed as int);
        // prod / bps <= claimed since prod <= bps * claimed
        lemma_multiply_divide_le(prod as int, BPS_DENOM as int, effective_claimed as int);
    }
    let q: u128 = prod / (BPS_DENOM as u128);
    q as u64
}

} // verus!
