//! Rental cost and deposit split arithmetic.

use vstd::prelude::*;

verus! {

/// Integer division of `a` by a positive `b`, rounded toward zero
/// (the rounding of Rust's `/` on signed integers).
pub open spec fn div_toward_zero(a: int, b: int) -> int
    recommends
        b > 0,
{
    if a >= 0 {
        a / b
    } else {
        -((-a) / b)
    }
}

/// Basis points are capped at 100% (10 000).
pub open spec fn capped_bps(bps: u32) -> int {
    if bps <= 10000 {
        bps as int
    } else {
        10000
    }
}

/// The landlord's share of a deposit: `total * bps / 10000`, rounded toward zero.
pub open spec fn landlord_share_spec(total: int, bps: u32) -> int {
    div_toward_zero(total * capped_bps(bps), 10000)
}

/// Whether `total * capped_bps` fits in an `i128`.
pub open spec fn split_fits(total: i128, bps: u32) -> bool {
    i128::MIN <= total * capped_bps(bps) <= i128::MAX
}

/// A capped basis-point share of `total` lies between zero and `total`.
pub proof fn lemma_share_between_zero_and_total(total: int, pct: int)
    requires
        0 <= pct <= 10000,
    ensures
        total >= 0 ==> 0 <= div_toward_zero(total * pct, 10000) <= total,
        total < 0 ==> total <= div_toward_zero(total * pct, 10000) <= 0,
{
    if total >= 0 {
        assert(0 <= total * pct <= total * 10000) by (nonlinear_arith)
            requires total >= 0, 0 <= pct <= 10000;
        assert((total * pct) / 10000 <= total) by (nonlinear_arith)
            requires 0 <= total * pct <= total * 10000;
    } else {
        assert(0 <= (-total) * pct <= (-total) * 10000) by (nonlinear_arith)
            requires total < 0, 0 <= pct <= 10000;
        assert(-(total * pct) == (-total) * pct) by (nonlinear_arith);
        assert(((-total) * pct) / 10000 <= -total) by (nonlinear_arith)
            requires 0 <= (-total) * pct <= (-total) * 10000;
    }
}

/// Total rental cost for `duration_secs` seconds at `rate_per_sec`; `None` on overflow.
pub fn calculate_total_cost(duration_secs: u64, rate_per_sec: u64) -> (result: Option<u64>)
    ensures
        duration_secs * rate_per_sec <= u64::MAX ==> result == Some((duration_secs * rate_per_sec) as u64),
        duration_secs * rate_per_sec > u64::MAX ==> result is None,
{
    duration_secs.checked_mul(rate_per_sec)
}

/// Splits a deposit between landlord and tenant: the landlord gets
/// `total * min(bps, 10000) / 10000` (rounded toward zero) and the tenant the
/// remainder, so no unit of the deposit is lost to rounding. `None` when the
/// intermediate product overflows.
pub fn calculate_deposit_split(total_deposit: i128, landlord_bps: u32) -> (result: Option<(i128, i128)>)
    ensures
        split_fits(total_deposit, landlord_bps) <==> result is Some,
        result matches Some((landlord, tenant)) ==> {
            &&& landlord == landlord_share_spec(total_deposit as int, landlord_bps)
            &&& tenant == total_deposit - landlord
            &&& landlord + tenant == total_deposit
            &&& total_deposit >= 0 ==> 0 <= landlord <= total_deposit && 0 <= tenant <= total_deposit
        },
        0 <= total_deposit <= i128::MAX / 10000 ==> result is Some,
{
    let landlord_pct: i128 = if landlord_bps <= 10000 { landlord_bps as i128 } else { 10000 };
    proof {
        if 0 <= total_deposit <= i128::MAX / 10000 {
            assert(total_deposit * capped_bps(landlord_bps) <= total_deposit * 10000) by (nonlinear_arith)
                requires 0 <= total_deposit, capped_bps(landlord_bps) <= 10000;
        }
    }
    let product = total_deposit.checked_mul(landlord_pct)?;
    let landlord_share = product / 10000;
    proof {
        lemma_share_between_zero_and_total(total_deposit as int, landlord_pct as int);
    }
    let tenant_share = total_deposit.checked_sub(landlord_share)?;
    Some((landlord_share, tenant_share))
}

} // verus!

verus! {

/// `x` clamped into the range of `i128`.
pub open spec fn clamp_i128(x: int) -> int {
    if x > i128::MAX {
        i128::MAX as int
    } else if x < i128::MIN {
        i128::MIN as int
    } else {
        x
    }
}

/// Product of two `i128`, saturating at the bounds of the type.
pub fn saturating_mul_i128(a: i128, b: i128) -> (r: i128)
    ensures
        r == clamp_i128(a * b),
{
    match a.checked_mul(b) {
        Some(v) => v,
        None => {
            if (a < 0) == (b < 0) {
                proof {
                    if a < 0 {
                        assert(a * b > 0) by (nonlinear_arith) requires a < 0, b < 0;
                    } else {
                        assert(a * b >= 0) by (nonlinear_arith) requires a >= 0, b >= 0;
                    }
                }
                i128::MAX
            } else {
                proof {
                    if a < 0 {
                        assert(a * b <= 0) by (nonlinear_arith) requires a < 0, b >= 0;
                    } else {
                        assert(a * b <= 0) by (nonlinear_arith) requires a >= 0, b < 0;
                    }
                }
                i128::MIN
            }
        },
    }
}

/// Difference of two `i128`, saturating at the bounds of the type.
pub fn saturating_sub_i128(a: i128, b: i128) -> (r: i128)
    ensures
        r == clamp_i128(a - b),
{
    match a.checked_sub(b) {
        Some(v) => v,
        None => {
            if b < 0 {
                i128::MAX
            } else {
                i128::MIN
            }
        },
    }
}

} // verus!
