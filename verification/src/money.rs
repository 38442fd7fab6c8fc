//! Fixed-point arithmetic shared by the calculator, the scorer and the
//! stress simulator.

use vstd::prelude::*;

verus! {

/// One whole, in the parts-per-million unit used for every rate.
pub const RATE_SCALE: i64 = 1_000_000;

/// One rand, in the millionths of a rand that every amount is held in.
pub const RAND: i64 = 1_000_000;

/// Largest number of assets that a calculation can take.
pub const MAX_ASSETS: usize = 1_000_000;

/// Strict upper bound on any sum of asset values in a scenario within
/// [`MAX_ASSETS`].
pub const TOTAL_LIMIT: i128 = 10_000_000_000_000_000_000_000_000;

/// Largest total tax or available liquidity that can be scored.
pub const SCORABLE_LIMIT: i128 = 100_000_000_000_000_000_000_000_000;

/// `x` floored at zero.
pub open spec fn floor_zero(x: int) -> int {
    if x < 0 {
        0
    } else {
        x
    }
}

/// The smaller of two integers.
pub open spec fn lesser(a: int, b: int) -> int {
    if a <= b {
        a
    } else {
        b
    }
}

/// A rate clamped to the closed interval from zero to one whole.
pub open spec fn clamp_rate(rate: int) -> int {
    if rate < 0 {
        0
    } else if rate > RATE_SCALE as int {
        RATE_SCALE as int
    } else {
        rate
    }
}

/// `amount` multiplied by a parts-per-million `rate`, rounded down.
pub open spec fn rate_share(amount: int, rate: int) -> int {
    (amount * rate) / (RATE_SCALE as int)
}

/// `numerator / denominator` as a parts-per-million ratio, rounded down.
pub open spec fn ratio_ppm(numerator: int, denominator: int) -> int {
    (numerator * (RATE_SCALE as int)) / denominator
}

/// Rounded-down shares never shrink when the amount grows.
pub proof fn lemma_rate_share_monotonic(a: int, b: int, rate: int)
    requires
        a <= b,
        0 <= rate,
    ensures
        rate_share(a, rate) <= rate_share(b, rate),
{
    assert(a * rate <= b * rate) by (nonlinear_arith)
        requires
            a <= b,
            0 <= rate,
    ;
    lemma_div_monotonic(a * rate, b * rate, RATE_SCALE as int);
}

/// Division by a positive divisor is monotonic in the dividend.
pub proof fn lemma_div_monotonic(x: int, y: int, d: int)
    requires
        x <= y,
        0 < d,
    ensures
        x / d <= y / d,
{
    vstd::arithmetic::div_mod::lemma_div_is_ordered(x, y, d);
}

/// A share at a rate between zero and one whole lies between zero and the
/// amount.
pub proof fn lemma_rate_share_bounds(amount: int, rate: int)
    requires
        0 <= amount,
        0 <= rate <= RATE_SCALE,
    ensures
        0 <= rate_share(amount, rate) <= amount,
{
    assert(0 <= amount * rate <= amount * (RATE_SCALE as int)) by (nonlinear_arith)
        requires
            0 <= amount,
            0 <= rate <= RATE_SCALE,
    ;
    lemma_div_monotonic(0, amount * rate, RATE_SCALE as int);
    lemma_div_monotonic(amount * rate, amount * (RATE_SCALE as int), RATE_SCALE as int);
    assert((amount * (RATE_SCALE as int)) / (RATE_SCALE as int) == amount) by (nonlinear_arith);
}

/// `x` floored at zero, widened so that later sums cannot overflow.
pub fn floor_at_zero(x: i64) -> (r: i128)
    ensures
        r == floor_zero(x as int),
{
    if x < 0 {
        0
    } else {
        x as i128
    }
}

/// `x` floored at zero.
pub fn floor_wide(x: i128) -> (r: i128)
    ensures
        r == floor_zero(x as int),
{
    if x < 0 {
        0
    } else {
        x
    }
}

/// A rate clamped to `[0, RATE_SCALE]`.
pub fn clamped_rate(rate: i64) -> (r: i128)
    ensures
        r == clamp_rate(rate as int),
        0 <= r <= RATE_SCALE,
{
    if rate < 0 {
        0
    } else if rate > RATE_SCALE {
        RATE_SCALE as i128
    } else {
        rate as i128
    }
}

/// `amount` times `rate` parts per million, rounded down.
pub fn share_of(amount: i128, rate: i128) -> (r: i128)
    requires
        0 <= amount <= 20 * TOTAL_LIMIT,
        0 <= rate <= RATE_SCALE,
    ensures
        r == rate_share(amount as int, rate as int),
        0 <= r <= amount,
{
    proof {
        lemma_rate_share_bounds(amount as int, rate as int);
        assert(0 <= amount * rate <= 20 * TOTAL_LIMIT * RATE_SCALE) by (nonlinear_arith)
            requires
                0 <= amount <= 20 * TOTAL_LIMIT,
                0 <= rate <= RATE_SCALE,
        ;
    }
    (amount * rate) / (RATE_SCALE as i128)
}

} // verus!
