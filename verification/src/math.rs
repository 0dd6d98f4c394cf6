use vstd::prelude::*;

verus! {

/// The quotient of `n` by `d`, rounded up: the least integer `q` with
/// `q * d >= n`, for `n >= 0` and `d > 0`.
pub open spec fn ceil_div(n: int, d: int) -> int {
    if n % d == 0 {
        n / d
    } else {
        n / d + 1
    }
}

/// A quotient rounded down is the greatest integer whose product with the
/// divisor does not exceed the dividend.
pub proof fn lemma_floor_div_bounds(n: int, d: int)
    by (nonlinear_arith)
    requires
        0 <= n,
        0 < d,
    ensures
        0 <= n / d,
        (n / d) * d <= n,
        n < (n / d + 1) * d,
{
}

/// A quotient rounded up is the least integer whose product with the divisor
/// reaches the dividend.
pub proof fn lemma_ceil_div_bounds(n: int, d: int)
    requires
        0 <= n,
        0 < d,
    ensures
        0 <= ceil_div(n, d),
        n <= ceil_div(n, d) * d < n + d,
        n / d <= ceil_div(n, d) <= n / d + 1,
        (ceil_div(n, d) == n / d) <==> n % d == 0,
        (ceil_div(n, d) * d == n) <==> n % d == 0,
{
    lemma_floor_div_bounds(n, d);
    assert(n == d * (n / d) + n % d && 0 <= n % d < d) by (nonlinear_arith)
        requires
            0 <= n,
            0 < d,
    ;
    assert((n / d) * d == d * (n / d)) by (nonlinear_arith);
    assert((n / d + 1) * d == (n / d) * d + d) by (nonlinear_arith);
}

/// A quotient that divides exactly is the one integer whose product with the
/// divisor is the dividend.
pub proof fn lemma_exact_div(n: int, d: int, q: int)
    by (nonlinear_arith)
    requires
        0 < d,
        q * d == n,
    ensures
        n / d == q,
        n % d == 0,
{
}

/// The product of two `u64` values fits in a `u128`, with room to add a third.
pub proof fn lemma_product_fits(a: u64, b: u64)
    by (nonlinear_arith)
    ensures
        0 <= a * b <= 0xFFFF_FFFF_FFFF_FFFE_0000_0000_0000_0001,
{
}

/// `a * b / d`, rounded down, computed without overflow.
pub fn mul_div_floor(a: u64, b: u64, d: u128) -> (q: u128)
    requires
        d > 0,
    ensures
        q == (a * b) / (d as int),
{
    proof {
        lemma_product_fits(a, b);
    }
    let product: u128 = (a as u128) * (b as u128);
    product / d
}

/// `a * b / d`, rounded up, computed without overflow.
pub fn mul_div_ceil(a: u64, b: u64, d: u128) -> (q: u128)
    requires
        d > 0,
    ensures
        q == ceil_div(a * b, d as int),
{
    proof {
        lemma_product_fits(a, b);
        lemma_floor_div_bounds(a * b, d as int);
        assert((a * b) / (d as int) <= a * b) by (nonlinear_arith)
            requires
                0 <= a * b,
                d > 0,
        ;
    }
    let product: u128 = (a as u128) * (b as u128);
    let quotient: u128 = product / d;
    if product % d == 0 {
        quotient
    } else {
        quotient + 1
    }
}

/// The value as a `u64`, where it fits.
pub fn narrow(v: u128) -> (r: Option<u64>)
    ensures
        r == if v <= u64::MAX {
            Some(v as u64)
        } else {
            None::<u64>
        },
{
    if v <= u64::MAX as u128 {
        Some(v as u64)
    } else {
        None
    }
}

} // verus!
