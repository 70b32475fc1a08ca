//! Fixed-point arithmetic.
//!
//! Every physical quantity of the simulation (lengths, speeds, forces, energy,
//! durations) is an integer count of millionths of its unit. Signed quantities
//! are `i64`, quantities that cannot be negative are `u64`. Intermediate
//! results are computed exactly in 128 bits; a result that does not fit in
//! 64 bits is replaced by the nearest value that does. Quotients are rounded
//! toward zero, so that negating an operand negates the result.

use vstd::prelude::*;

verus! {

/// The number of steps that make up one unit.
pub const SCALE: i64 = 1_000_000;

/// The nearest `i64` to `x`.
pub open spec fn sat(x: int) -> int {
    if x < i64::MIN {
        i64::MIN as int
    } else if x > i64::MAX {
        i64::MAX as int
    } else {
        x
    }
}

/// The nearest `u64` to `x`.
pub open spec fn sat_unsigned(x: int) -> int {
    if x < 0 {
        0
    } else if x > u64::MAX {
        u64::MAX as int
    } else {
        x
    }
}

/// `x` held between `lo` and `hi`. Where `lo > hi` the lower bound wins.
pub open spec fn clamp_spec(x: int, lo: int, hi: int) -> int {
    if x < lo {
        lo
    } else if x > hi {
        hi
    } else {
        x
    }
}

/// The quotient of `a` by a positive `b`, rounded toward zero.
pub open spec fn div_toward_zero(a: int, b: int) -> int {
    if a >= 0 {
        a / b
    } else {
        -((-a) / b)
    }
}

/// The fixed-point product of two fixed-point numbers.
pub open spec fn fixed_mul_spec(a: int, b: int) -> int {
    sat(div_toward_zero(a * b, SCALE as int))
}

/// The fixed-point product of two unsigned fixed-point numbers.
pub open spec fn unsigned_mul_spec(a: int, b: int) -> int {
    sat_unsigned((a * b) / (SCALE as int))
}

/// Whether `x` fits in 64 bits.
pub open spec fn fits(x: int) -> bool {
    i64::MIN <= x <= i64::MAX
}

/// The fixed-point product of two fixed-point numbers, where it fits in 64
/// bits.
pub open spec fn checked_mul_spec(a: int, b: int) -> Option<int> {
    let product = div_toward_zero(a * b, SCALE as int);
    if fits(product) {
        Some(product)
    } else {
        None
    }
}

/// The absolute value of `x`.
pub open spec fn magnitude_spec(x: int) -> int {
    if x >= 0 {
        x
    } else {
        -x
    }
}

/// `r` is the integer square root of `n`, rounded down.
pub open spec fn is_floor_sqrt(n: int, r: int) -> bool {
    0 <= r && r * r <= n < (r + 1) * (r + 1)
}

/// The integer square root of `n`, rounded down.
pub open spec fn floor_sqrt(n: int) -> int {
    choose|r: int| is_floor_sqrt(n, r)
}

/// A number has at most one rounded-down square root.
pub proof fn lemma_floor_sqrt_unique(n: int, r: int, s: int)
    requires
        is_floor_sqrt(n, r),
        is_floor_sqrt(n, s),
    ensures
        r == s,
{
    if r < s {
        assert((r + 1) * (r + 1) <= s * s) by (nonlinear_arith)
            requires
                0 <= r,
                r + 1 <= s,
        ;
    } else if s < r {
        assert((s + 1) * (s + 1) <= r * r) by (nonlinear_arith)
            requires
                0 <= s,
                s + 1 <= r,
        ;
    }
}

/// Whatever meets `is_floor_sqrt` is the value of `floor_sqrt`.
pub proof fn lemma_floor_sqrt_is(n: int, r: int)
    requires
        is_floor_sqrt(n, r),
    ensures
        floor_sqrt(n) == r,
{
    lemma_floor_sqrt_unique(n, r, floor_sqrt(n));
}

/// Every natural number has a rounded-down square root.
pub proof fn lemma_floor_sqrt_exists(m: int)
    requires
        m >= 0,
    ensures
        is_floor_sqrt(m, floor_sqrt(m)),
    decreases m,
{
    if m == 0 {
        assert(is_floor_sqrt(0, 0));
    } else {
        lemma_floor_sqrt_exists(m - 1);
        let r = floor_sqrt(m - 1);
        if m < (r + 1) * (r + 1) {
            assert(is_floor_sqrt(m, r));
        } else {
            assert((r + 2) * (r + 2) > (r + 1) * (r + 1)) by (nonlinear_arith)
                requires
                    r >= 0,
            ;
            assert(is_floor_sqrt(m, r + 1));
        }
    }
}

/// The rounded-down square root of a number that is at least `t * t` is at
/// least `t`.
pub proof fn lemma_floor_sqrt_at_least(m: int, t: int)
    requires
        0 <= t,
        t * t <= m,
    ensures
        floor_sqrt(m) >= t,
{
    assert(m >= 0) by (nonlinear_arith)
        requires
            t * t <= m,
    ;
    lemma_floor_sqrt_exists(m);
    let r = floor_sqrt(m);
    if r < t {
        assert((r + 1) * (r + 1) <= t * t) by (nonlinear_arith)
            requires
                0 <= r,
                r + 1 <= t,
        ;
    }
}

/// Brings a wide intermediate result back to 64 bits.
pub fn saturate(x: i128) -> (r: i64)
    ensures
        r == sat(x as int),
{
    if x < i64::MIN as i128 {
        i64::MIN
    } else if x > i64::MAX as i128 {
        i64::MAX
    } else {
        x as i64
    }
}

/// Brings a wide intermediate result back to an unsigned 64-bit quantity.
pub fn saturate_unsigned(x: i128) -> (r: u64)
    ensures
        r == sat_unsigned(x as int),
{
    if x < 0 {
        0
    } else if x > u64::MAX as i128 {
        u64::MAX
    } else {
        x as u64
    }
}

/// Holds `x` between `lo` and `hi`.
pub fn clamp(x: i64, lo: i64, hi: i64) -> (r: i64)
    ensures
        r == clamp_spec(x as int, lo as int, hi as int),
{
    if x < lo {
        lo
    } else if x > hi {
        hi
    } else {
        x
    }
}

/// The absolute value of `x`, which always fits in a `u64`.
pub fn magnitude(x: i64) -> (r: u64)
    ensures
        r == magnitude_spec(x as int),
{
    if x >= 0 {
        x as u64
    } else {
        (-(x as i128)) as u64
    }
}

/// The exact product of two 64-bit numbers.
pub fn wide_mul(a: i64, b: i64) -> (r: i128)
    ensures
        r == a * b,
        -0x4000_0000_0000_0000_0000_0000_0000_0000 < r <= 0x4000_0000_0000_0000_0000_0000_0000_0000,
{
    assert(-0x4000_0000_0000_0000_0000_0000_0000_0000 < a * b
        <= 0x4000_0000_0000_0000_0000_0000_0000_0000) by (nonlinear_arith)
        requires
            -0x8000_0000_0000_0000 <= a <= 0x7fff_ffff_ffff_ffff,
            -0x8000_0000_0000_0000 <= b <= 0x7fff_ffff_ffff_ffff,
    ;
    (a as i128) * (b as i128)
}

/// The exact product of two unsigned 64-bit numbers.
pub fn wide_mul_unsigned(a: u64, b: u64) -> (r: u128)
    ensures
        r == a * b,
{
    assert(0 <= a * b <= 0xffff_ffff_ffff_ffff * 0xffff_ffff_ffff_ffff) by (nonlinear_arith)
        requires
            0 <= a <= 0xffff_ffff_ffff_ffff,
            0 <= b <= 0xffff_ffff_ffff_ffff,
    ;
    (a as u128) * (b as u128)
}

/// Multiplies two fixed-point numbers.
pub fn fixed_mul(a: i64, b: i64) -> (r: i64)
    ensures
        r == fixed_mul_spec(a as int, b as int),
{
    let wide = wide_mul(a, b);
    saturate(wide / (SCALE as i128))
}

/// Multiplies two unsigned fixed-point numbers.
pub fn unsigned_mul(a: u64, b: u64) -> (r: u64)
    ensures
        r == unsigned_mul_spec(a as int, b as int),
{
    let wide = wide_mul_unsigned(a, b) / (SCALE as u128);
    if wide > u64::MAX as u128 {
        u64::MAX
    } else {
        wide as u64
    }
}

/// Adds two unsigned quantities; the sum stops at the greatest `u64`.
pub fn unsigned_add(a: u64, b: u64) -> (r: u64)
    ensures
        r == sat_unsigned(a + b),
{
    if a > u64::MAX - b {
        u64::MAX
    } else {
        a + b
    }
}

/// Multiplies two fixed-point numbers; `None` where the product does not fit
/// in 64 bits.
pub fn checked_fixed_mul(a: i64, b: i64) -> (r: Option<i64>)
    ensures
        r matches Some(product) ==> checked_mul_spec(a as int, b as int) == Some(product as int),
        r is None ==> checked_mul_spec(a as int, b as int) is None,
{
    let product = wide_mul(a, b) / (SCALE as i128);
    if product < i64::MIN as i128 || product > i64::MAX as i128 {
        None
    } else {
        Some(product as i64)
    }
}

/// The integer square root of `n`, rounded down.
pub fn isqrt(n: u128) -> (r: u64)
    ensures
        is_floor_sqrt(n as int, r as int),
        r == floor_sqrt(n as int),
{
    let mut lo: u128 = 0;
    let mut hi: u128 = 0x1_0000_0000_0000_0000;
    assert(n < hi * hi) by (nonlinear_arith)
        requires
            n <= 0xffff_ffff_ffff_ffff_ffff_ffff_ffff_ffff,
            hi == 0x1_0000_0000_0000_0000,
    ;
    while hi - lo > 1
        invariant
            lo < hi <= 0x1_0000_0000_0000_0000,
            lo * lo <= n,
            n < hi * hi,
        decreases hi - lo,
    {
        let mid = lo + (hi - lo) / 2;
        assert(mid * mid <= 0xffff_ffff_ffff_ffff_ffff_ffff_ffff_ffff) by (nonlinear_arith)
            requires
                mid <= 0xffff_ffff_ffff_ffff,
        ;
        if mid * mid <= n {
            lo = mid;
        } else {
            hi = mid;
        }
    }
    proof {
        lemma_floor_sqrt_is(n as int, lo as int);
    }
    lo as u64
}

} // verus!
