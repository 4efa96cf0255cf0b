//! Exact fixed-point scalar arithmetic.
//!
//! A scalar is an `i64` counting units of `1 / FX_ONE`. Addition and
//! subtraction are exact; multiplication and division round toward zero at
//! the last step only, and the square root returns the floor of the exact
//! root, so every operation here has a complete arithmetic specification.

use vstd::prelude::*;

verus! {

/// The fixed-point unit: scalars carry 16 fractional bits.
pub const FX_ONE: i64 = 65536;

/// Absolute value of a mathematical integer.
pub open spec fn abs_s(a: int) -> int {
    if a < 0 {
        -a
    } else {
        a
    }
}

/// Truncating (round-toward-zero) division, the rounding used by `/` on
/// machine integers. Defined as 0 on a zero divisor to stay total.
pub open spec fn tdiv_s(a: int, b: int) -> int {
    if b == 0 {
        0
    } else if (a < 0) == (b < 0) {
        abs_s(a) / abs_s(b)
    } else {
        -(abs_s(a) / abs_s(b))
    }
}

/// The exact product of two fixed-point scalars, rounded toward zero.
pub open spec fn fx_mul_s(a: int, b: int) -> int {
    tdiv_s(a * b, FX_ONE as int)
}

/// The exact quotient of two fixed-point scalars, rounded toward zero.
pub open spec fn fx_div_s(a: int, b: int) -> int {
    tdiv_s(a * FX_ONE, b)
}

/// `r` is the floor of the exact square root of `n`.
pub open spec fn is_sqrt_floor(n: int, r: int) -> bool {
    &&& 0 <= r
    &&& r * r <= n
    &&& n < (r + 1) * (r + 1)
}

/// The floor of the exact square root of a nonnegative integer.
pub open spec fn sqrt_floor(n: int) -> int {
    choose|r: int| is_sqrt_floor(n, r)
}

proof fn lemma_sqrt_floor_exists_rec(n: int) -> (r: int)
    requires
        n >= 0,
    ensures
        is_sqrt_floor(n, r),
    decreases n,
{
    if n == 0 {
        assert(is_sqrt_floor(0, 0));
        0
    } else {
        let p = lemma_sqrt_floor_exists_rec(n - 1);
        if (p + 1) * (p + 1) <= n {
            assert(n < (p + 1 + 1) * (p + 1 + 1)) by (nonlinear_arith)
                requires
                    p >= 0,
                    n - 1 < (p + 1) * (p + 1),
            ;
            assert(is_sqrt_floor(n, p + 1));
            p + 1
        } else {
            assert(is_sqrt_floor(n, p));
            p
        }
    }
}

/// Every nonnegative integer has a square-root floor, and `sqrt_floor`
/// denotes it.
pub proof fn lemma_sqrt_floor(n: int)
    requires
        n >= 0,
    ensures
        is_sqrt_floor(n, sqrt_floor(n)),
{
    let r = lemma_sqrt_floor_exists_rec(n);
    assert(is_sqrt_floor(n, r));
}

/// The square-root floor is unique.
pub proof fn lemma_sqrt_floor_unique(n: int, r1: int, r2: int)
    requires
        is_sqrt_floor(n, r1),
        is_sqrt_floor(n, r2),
    ensures
        r1 == r2,
{
    assert(r1 == r2) by (nonlinear_arith)
        requires
            0 <= r1,
            0 <= r2,
            r1 * r1 <= n,
            n < (r1 + 1) * (r1 + 1),
            r2 * r2 <= n,
            n < (r2 + 1) * (r2 + 1),
    ;
}

/// Truncating division on wide integers, by dividing magnitudes.
pub fn tdiv128(a: i128, b: i128) -> (r: i128)
    requires
        b != 0,
        a != i128::MIN,
        b != i128::MIN,
    ensures
        r == tdiv_s(a as int, b as int),
{
    let ua: u128 = (if a < 0 {
        -a
    } else {
        a
    }) as u128;
    let ub: u128 = (if b < 0 {
        -b
    } else {
        b
    }) as u128;
    let uq: u128 = ua / ub;
    proof {
        lemma_div_mag(ua as int, ub as int);
        assert(uq as int == abs_s(a as int) / abs_s(b as int));
    }
    if (a < 0) != (b < 0) {
        -(uq as i128)
    } else {
        uq as i128
    }
}

proof fn lemma_div_mag(a: int, b: int)
    requires
        a >= 0,
        b >= 1,
    ensures
        0 <= a / b <= a,
{
    vstd::arithmetic::div_mod::lemma_div_pos_is_pos(a, b);
    vstd::arithmetic::div_mod::lemma_div_nonincreasing(a, b);
}

/// Magnitude of a truncating quotient never exceeds the dividend's.
pub proof fn lemma_tdiv_mag(a: int, b: int)
    requires
        b != 0,
    ensures
        abs_s(tdiv_s(a, b)) <= abs_s(a),
        abs_s(tdiv_s(a, b)) == abs_s(a) / abs_s(b),
{
    lemma_div_mag(abs_s(a), abs_s(b));
}

/// A truncating quotient whose dividend is at most `m * b` in magnitude is
/// at most `m` in magnitude.
pub proof fn lemma_tdiv_bound_by(a: int, b: int, m: int)
    requires
        b >= 1,
        m >= 0,
        abs_s(a) <= m * b,
    ensures
        -m <= tdiv_s(a, b) <= m,
{
    lemma_tdiv_mag(a, b);
    vstd::arithmetic::div_mod::lemma_div_is_ordered(abs_s(a), m * b, b);
    vstd::arithmetic::div_mod::lemma_div_by_multiple(m, b);
}

/// Truncating division preserves sign: the quotient of values with a
/// positive divisor has the dividend's sign (or is zero).
pub proof fn lemma_tdiv_sign(a: int, b: int)
    requires
        b > 0,
    ensures
        a >= 0 ==> tdiv_s(a, b) >= 0,
        a <= 0 ==> tdiv_s(a, b) <= 0,
{
    lemma_div_mag(abs_s(a), abs_s(b));
}

/// Truncating division relates the signs of its operands to the sign of
/// the quotient, whatever they are.
pub proof fn lemma_tdiv_sign_full(a: int, b: int)
    requires
        b != 0,
    ensures
        (a >= 0 && b > 0) ==> tdiv_s(a, b) >= 0,
        (a <= 0 && b > 0) ==> tdiv_s(a, b) <= 0,
        (a >= 0 && b < 0) ==> tdiv_s(a, b) <= 0,
        (a <= 0 && b < 0) ==> tdiv_s(a, b) >= 0,
{
    lemma_div_mag(abs_s(a), abs_s(b));
}

/// Fixed-point multiplication: exact product, rounded toward zero.
pub fn fx_mul(a: i64, b: i64) -> (r: i64)
    requires
        i64::MIN <= fx_mul_s(a as int, b as int) <= i64::MAX,
    ensures
        r as int == fx_mul_s(a as int, b as int),
{
    proof {
        lemma_i64_product_fits(a as int, b as int);
    }
    let wide: i128 = (a as i128) * (b as i128);
    let q = tdiv128(wide, FX_ONE as i128);
    proof {
        lemma_tdiv_mag(wide as int, FX_ONE as int);
    }
    q as i64
}

proof fn lemma_i64_product_fits(a: int, b: int)
    requires
        i64::MIN <= a <= i64::MAX,
        i64::MIN <= b <= i64::MAX,
    ensures
        i128::MIN < a * b < i128::MAX,
{
    assert(-0x4000_0000_0000_0000_0000_0000_0000_0000 <= a * b
        <= 0x4000_0000_0000_0000_0000_0000_0000_0000) by (nonlinear_arith)
        requires
            -0x8000_0000_0000_0000 <= a <= 0x8000_0000_0000_0000,
            -0x8000_0000_0000_0000 <= b <= 0x8000_0000_0000_0000,
    ;
}

/// Fixed-point division: exact quotient, rounded toward zero.
pub fn fx_div(a: i64, b: i64) -> (r: i64)
    requires
        b != 0,
        i64::MIN <= fx_div_s(a as int, b as int) <= i64::MAX,
    ensures
        r as int == fx_div_s(a as int, b as int),
{
    let wide: i128 = (a as i128) * (FX_ONE as i128);
    let q = tdiv128(wide, b as i128);
    proof {
        lemma_tdiv_mag(wide as int, b as int);
    }
    q as i64
}

/// Floor of the exact square root, by binary search on the answer.
pub fn isqrt(n: u128) -> (r: u128)
    ensures
        r as int == sqrt_floor(n as int),
        is_sqrt_floor(n as int, r as int),
{
    let mut lo: u128 = 0;
    let mut hi: u128 = 0x1_0000_0000_0000_0000;
    proof {
        assert((hi as int) * (hi as int) > n as int) by (nonlinear_arith)
            requires
                hi == 0x1_0000_0000_0000_0000u128,
                n <= u128::MAX,
        ;
    }
    while lo + 1 < hi
        invariant
            (lo as int) * (lo as int) <= n as int,
            (n as int) < (hi as int) * (hi as int),
            lo < hi <= 0x1_0000_0000_0000_0000,
        decreases hi - lo,
    {
        let mid = lo + (hi - lo) / 2;
        proof {
            assert((mid as int) * (mid as int) < u128::MAX as int) by (nonlinear_arith)
                requires
                    mid < 0x1_0000_0000_0000_0000u128,
            ;
        }
        let sq = mid * mid;
        if sq <= n {
            lo = mid;
        } else {
            hi = mid;
        }
    }
    proof {
        assert(is_sqrt_floor(n as int, lo as int));
        lemma_sqrt_floor(n as int);
        lemma_sqrt_floor_unique(n as int, lo as int, sqrt_floor(n as int));
    }
    lo
}

} // verus!
