//! Fee, collateral and factoring arithmetic, all in basis points with floor
//! division.
use vstd::prelude::*;
use vstd::arithmetic::div_mod::{
    lemma_div_denominator,
    lemma_div_multiples_vanish,
    lemma_fundamental_div_mod,
    lemma_hoist_over_denominator,
};

verus! {

/// One whole, in basis points.
pub const BPS_DENOMINATOR: u128 = 10000;

/// Share of the face value that an investor advances (95%).
pub const FACTOR_RATE_BPS: u128 = 9500;

/// Platform fee, taken on the factored amount (1%).
pub const PLATFORM_FEE_BPS: u128 = 100;

/// Insurance fee, taken on the factored amount when insurance is elected (0.5%).
pub const INSURANCE_FEE_BPS: u128 = 50;

/// Collateral a business must lock before factoring (40% of the face value).
pub const COLLATERAL_RATE_BPS: u128 = 4000;

/// `amount * bps / 10000`, with floor division.
pub open spec fn bps_share_spec(amount: int, bps: int) -> int {
    amount * bps / 10000
}

/// Collateral required for an invoice of face value `amount`.
pub open spec fn required_collateral_spec(amount: int) -> int {
    amount * 40 / 100
}

/// What the investor advances for an invoice of face value `amount`.
pub open spec fn factor_amount_spec(amount: int) -> int {
    amount * 95 / 100
}

/// Platform fee on a factored amount.
pub open spec fn platform_fee_spec(factor_amount: int) -> int {
    factor_amount * 1 / 100
}

/// Insurance fee on a factored amount, or zero without insurance.
pub open spec fn insurance_fee_spec(factor_amount: int, with_insurance: bool) -> int {
    if with_insurance {
        factor_amount * 5 / 1000
    } else {
        0
    }
}

/// Payment an investor must attach to factor an invoice of face value `amount`.
pub open spec fn factoring_cost_spec(amount: int, with_insurance: bool) -> int {
    let f = factor_amount_spec(amount);
    f + platform_fee_spec(f) + insurance_fee_spec(f, with_insurance)
}

/// `(x * 100) / 10000 == x / 100` for a non-negative `x`.
proof fn lemma_percent_as_bps(x: int)
    requires
        0 <= x,
    ensures
        (x * 100) / 10000 == x / 100,
{
    lemma_div_denominator(x * 100, 100, 100);
    lemma_div_multiples_vanish(x, 100);
    assert(100 * x == x * 100);
}

/// `(x * 10) / 10000 == x / 1000` for a non-negative `x`.
proof fn lemma_permille_as_bps(x: int)
    requires
        0 <= x,
    ensures
        (x * 10) / 10000 == x / 1000,
{
    lemma_div_denominator(x * 10, 10, 1000);
    lemma_div_multiples_vanish(x, 10);
    assert(10 * x == x * 10);
}

/// Share of `amount` at a rate of `bps` basis points, rounded down.
/// Never overflows: the intermediate product is never formed.
pub fn bps_share(amount: u128, bps: u128) -> (r: u128)
    requires
        bps <= BPS_DENOMINATOR,
    ensures
        r as int == bps_share_spec(amount as int, bps as int),
        r <= amount,
{
    let q = amount / BPS_DENOMINATOR;
    let rem = amount % BPS_DENOMINATOR;
    proof {
        let (a, b, qi, ri) = (amount as int, bps as int, q as int, rem as int);
        lemma_fundamental_div_mod(a, 10000);
        assert(a * b == ri * b + (qi * b) * 10000) by (nonlinear_arith)
            requires
                a == 10000 * qi + ri,
        ;
        lemma_hoist_over_denominator(ri * b, qi * b, 10000);
        assert(ri * b <= ri * 10000) by (nonlinear_arith)
            requires
                0 <= ri,
                b <= 10000,
        ;
        assert(ri * b / 10000 <= ri) by (nonlinear_arith)
            requires
                0 <= ri * b <= ri * 10000,
        ;
        assert(qi * b <= qi * 10000) by (nonlinear_arith)
            requires
                0 <= qi,
                0 <= b <= 10000,
        ;
    }
    q * bps + rem * bps / BPS_DENOMINATOR
}

/// Collateral a business must lock for an invoice of face value `amount`.
pub fn required_collateral(amount: u128) -> (r: u128)
    ensures
        r as int == required_collateral_spec(amount as int),
{
    proof { lemma_percent_as_bps(amount * 40); }
    bps_share(amount, COLLATERAL_RATE_BPS)
}

/// Amount an investor advances for an invoice of face value `amount`.
pub fn factor_amount(amount: u128) -> (r: u128)
    ensures
        r as int == factor_amount_spec(amount as int),
        r <= amount,
{
    proof { lemma_percent_as_bps(amount * 95); }
    bps_share(amount, FACTOR_RATE_BPS)
}

/// Platform fee on a factored amount.
pub fn platform_fee(factor_amount: u128) -> (r: u128)
    ensures
        r as int == platform_fee_spec(factor_amount as int),
{
    proof { lemma_percent_as_bps(factor_amount as int); }
    bps_share(factor_amount, PLATFORM_FEE_BPS)
}

/// Insurance fee on a factored amount; zero unless insurance is elected.
pub fn insurance_fee(factor_amount: u128, with_insurance: bool) -> (r: u128)
    ensures
        r as int == insurance_fee_spec(factor_amount as int, with_insurance),
{
    if with_insurance {
        proof { lemma_permille_as_bps(factor_amount * 5); }
        bps_share(factor_amount, INSURANCE_FEE_BPS)
    } else {
        0
    }
}

/// Payment an investor must attach to factor an invoice of face value
/// `amount`: the factored amount plus the platform fee, plus the insurance fee
/// when insurance is elected. It never exceeds the face value.
pub fn factoring_cost(amount: u128, with_insurance: bool) -> (r: u128)
    ensures
        r as int == factoring_cost_spec(amount as int, with_insurance),
        r <= amount,
{
    let f = factor_amount(amount);
    let p = platform_fee(f);
    let i = insurance_fee(f, with_insurance);
    proof {
        let (a, fi) = (amount as int, f as int);
        assert(100 * fi <= 95 * a);
        assert(100 * (p as int) <= fi);
        assert(1000 * (i as int) <= 5 * fi);
    }
    f + p + i
}

} // verus!
