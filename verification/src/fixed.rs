//! Fixed-point arithmetic in thousandths, saturating at the top of `u32`.

use vstd::prelude::*;

verus! {

/// The fixed-point representation of one whole.
pub const UNIT: u32 = 1000;

/// `x` cut off to the range of `u32`.
pub open spec fn clamp_u32(x: int) -> int {
    if x < 0 {
        0
    } else if x > u32::MAX as int {
        u32::MAX as int
    } else {
        x
    }
}

/// `x` cut off to the range of `i32`.
pub open spec fn clamp_i32(x: int) -> int {
    if x < i32::MIN as int {
        i32::MIN as int
    } else if x > i32::MAX as int {
        i32::MAX as int
    } else {
        x
    }
}

/// The quotient `a * b / d`, rounded down and cut off to `u32`.
pub open spec fn mul_div_spec(a: int, b: int, d: int) -> int
    recommends
        a >= 0,
        b >= 0,
        d > 0,
{
    clamp_u32(a * b / d)
}

/// A fixed-point value scaled by a fixed-point factor: `x * factor / 1000`.
pub open spec fn scale_spec(x: int, factor: int) -> int {
    mul_div_spec(x, factor, 1000)
}

/// The product of a signed and an unsigned value divided by `d`, rounded
/// toward zero, so that a value and its negation scale to opposite results.
pub open spec fn signed_mul_div_spec(v: int, m: int, d: int) -> int
    recommends
        m >= 0,
        d > 0,
{
    if v >= 0 {
        v * m / d
    } else {
        -((-v) * m / d)
    }
}

/// The product of two bounded naturals is bounded by the product of the
/// bounds.
pub(crate) proof fn lemma_product_bound(a: int, b: int, bound_a: int, bound_b: int)
    by (nonlinear_arith)
    requires
        0 <= a <= bound_a,
        0 <= b <= bound_b,
    ensures
        0 <= a * b <= bound_a * bound_b,
{
}

/// Computes `a * b / d` without intermediate overflow, saturating at `u32::MAX`.
pub fn mul_div(a: u32, b: u32, d: u32) -> (r: u32)
    requires
        d > 0,
    ensures
        r == mul_div_spec(a as int, b as int, d as int),
{
    proof {
        lemma_product_bound(a as int, b as int, u32::MAX as int, u32::MAX as int);
    }
    let wide: u64 = (a as u64) * (b as u64);
    let q: u64 = wide / (d as u64);
    if q > u32::MAX as u64 {
        u32::MAX
    } else {
        q as u32
    }
}

/// Scales `x` by `factor`, both in thousandths.
pub fn scale(x: u32, factor: u32) -> (r: u32)
    ensures
        r == scale_spec(x as int, factor as int),
{
    mul_div(x, factor, UNIT)
}

/// Computes `v * m / d` rounded toward zero.
pub fn signed_mul_div(v: i64, m: u64, d: u64) -> (r: i128)
    requires
        d > 0,
    ensures
        r == signed_mul_div_spec(v as int, m as int, d as int),
{
    if v >= 0 {
        proof {
            lemma_product_bound(v as int, m as int, i64::MAX as int, u64::MAX as int);
        }
        let wide: u128 = (v as u128) * (m as u128);
        (wide / (d as u128)) as i128
    } else {
        let mag: u128 = (-(v as i128)) as u128;
        proof {
            lemma_product_bound(mag as int, m as int, 0x8000_0000_0000_0000int, u64::MAX as int);
        }
        let wide: u128 = mag * (m as u128);
        -((wide / (d as u128)) as i128)
    }
}

/// Cuts a wide signed value off to the range of `i32`.
pub fn saturate_i32(x: i128) -> (r: i32)
    ensures
        r == clamp_i32(x as int),
{
    if x < i32::MIN as i128 {
        i32::MIN
    } else if x > i32::MAX as i128 {
        i32::MAX
    } else {
        x as i32
    }
}

/// Whether `r` is the integer square root of `n`.
pub open spec fn is_sqrt(n: int, r: int) -> bool {
    0 <= r && r * r <= n < (r + 1) * (r + 1)
}

/// The integer square root: the largest `r` with `r * r <= n`.
pub open spec fn int_sqrt(n: int) -> int {
    choose|r: int| is_sqrt(n, r)
}

/// Squaring keeps the order of naturals.
pub(crate) proof fn lemma_square_monotonic(a: int, b: int)
    by (nonlinear_arith)
    requires
        0 <= a <= b,
    ensures
        a * a <= b * b,
{
}

/// At most one value is the integer square root of `n`.
pub proof fn lemma_sqrt_unique(n: int, r: int, s: int)
    requires
        is_sqrt(n, r),
        is_sqrt(n, s),
    ensures
        r == s,
{
    if r < s {
        lemma_square_monotonic(r + 1, s);
    } else if s < r {
        lemma_square_monotonic(s + 1, r);
    }
}

/// A value that satisfies the defining inequality is the integer square root.
pub proof fn lemma_sqrt_is(n: int, r: int)
    requires
        is_sqrt(n, r),
    ensures
        int_sqrt(n) == r,
{
    lemma_sqrt_unique(n, r, int_sqrt(n));
}

/// Every natural number has an integer square root.
pub proof fn lemma_sqrt_exists(n: int)
    requires
        n >= 0,
    ensures
        is_sqrt(n, int_sqrt(n)),
    decreases n,
{
    if n == 0 {
        assert(is_sqrt(0, 0));
    } else {
        lemma_sqrt_exists(n - 1);
        let r = int_sqrt(n - 1);
        if (r + 1) * (r + 1) <= n {
            assert(n < (r + 2) * (r + 2)) by (nonlinear_arith)
                requires
                    n - 1 < (r + 1) * (r + 1),
                    r >= 0,
            ;
            assert(is_sqrt(n, r + 1));
        } else {
            assert(is_sqrt(n, r));
        }
    }
}

/// Computes the integer square root by bisection.
pub fn isqrt(n: u128) -> (r: u64)
    ensures
        is_sqrt(n as int, r as int),
        r == int_sqrt(n as int),
{
    let mut lo: u128 = 0;
    let mut hi: u128 = 0x1_0000_0000_0000_0000;
    proof {
        assert(hi * hi > n) by (nonlinear_arith)
            requires
                hi == 0x1_0000_0000_0000_0000,
                n <= u128::MAX,
        ;
    }
    while hi - lo > 1
        invariant
            lo < hi <= 0x1_0000_0000_0000_0000,
            lo * lo <= n < hi * hi,
        decreases hi - lo,
    {
        let mid: u128 = lo + (hi - lo) / 2;
        proof {
            lemma_product_bound(mid as int, mid as int, u64::MAX as int, u64::MAX as int);
        }
        if mid * mid <= n {
            lo = mid;
        } else {
            hi = mid;
        }
    }
    proof {
        assert(hi == lo + 1);
        lemma_sqrt_is(n as int, lo as int);
    }
    lo as u64
}

} // verus!
