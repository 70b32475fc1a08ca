//! Two-dimensional vectors of fixed-point numbers.

use crate::fixed::{
    div_toward_zero, fixed_mul, fixed_mul_spec, floor_sqrt, is_floor_sqrt, isqrt,
    lemma_floor_sqrt_exists, magnitude_spec, sat, saturate, wide_mul, SCALE,
};
use vstd::prelude::*;

verus! {

/// A point, a velocity or a force in the plane.
#[derive(Debug, Clone, Copy, PartialEq, Eq, Structural)]
pub struct Vec2 {
    pub x: i64,
    pub y: i64,
}

impl Vec2 {
    /// The vector with both components zero.
    pub open spec fn zero_spec() -> Vec2 {
        Vec2 { x: 0, y: 0 }
    }

    /// The component-wise sum.
    pub open spec fn plus_spec(self, other: Vec2) -> Vec2 {
        Vec2 { x: sat(self.x + other.x) as i64, y: sat(self.y + other.y) as i64 }
    }

    /// The component-wise difference.
    pub open spec fn minus_spec(self, other: Vec2) -> Vec2 {
        Vec2 { x: sat(self.x - other.x) as i64, y: sat(self.y - other.y) as i64 }
    }

    /// Both components multiplied by the fixed-point factor `k`.
    pub open spec fn scaled_spec(self, k: int) -> Vec2 {
        Vec2 {
            x: fixed_mul_spec(self.x as int, k) as i64,
            y: fixed_mul_spec(self.y as int, k) as i64,
        }
    }

    /// The vector turned a quarter turn counter-clockwise.
    pub open spec fn perpendicular_spec(self) -> Vec2 {
        Vec2 { x: sat(-self.y) as i64, y: self.x }
    }

    /// The fixed-point scalar product.
    pub open spec fn dot_spec(self, other: Vec2) -> int {
        sat(div_toward_zero(self.x * other.x + self.y * other.y, SCALE as int))
    }

    /// The squared length, in squared steps.
    pub open spec fn norm_squared_spec(self) -> int {
        self.x * self.x + self.y * self.y
    }

    /// The length, rounded down to a whole step.
    pub open spec fn norm_spec(self) -> int {
        floor_sqrt(self.norm_squared_spec())
    }

    /// The vector of length one in the same direction, or zero where the
    /// length does not exceed `min_norm`.
    pub open spec fn normalized_spec(self, min_norm: int) -> Vec2 {
        let n = self.norm_spec();
        if n <= min_norm || n <= 0 {
            Vec2::zero_spec()
        } else {
            Vec2 {
                x: sat(div_toward_zero(self.x * SCALE, n)) as i64,
                y: sat(div_toward_zero(self.y * SCALE, n)) as i64,
            }
        }
    }

    /// Whether both components are zero.
    pub open spec fn is_zero_spec(self) -> bool {
        self.x == 0 && self.y == 0
    }

    pub fn new(x: i64, y: i64) -> (r: Vec2)
        ensures
            r == (Vec2 { x, y }),
    {
        Vec2 { x, y }
    }

    pub fn zero() -> (r: Vec2)
        ensures
            r == Vec2::zero_spec(),
    {
        Vec2 { x: 0, y: 0 }
    }

    pub fn is_zero(self) -> (r: bool)
        ensures
            r == self.is_zero_spec(),
    {
        self.x == 0 && self.y == 0
    }

    pub fn plus(self, other: Vec2) -> (r: Vec2)
        ensures
            r == self.plus_spec(other),
    {
        Vec2 {
            x: saturate(self.x as i128 + other.x as i128),
            y: saturate(self.y as i128 + other.y as i128),
        }
    }

    pub fn minus(self, other: Vec2) -> (r: Vec2)
        ensures
            r == self.minus_spec(other),
    {
        Vec2 {
            x: saturate(self.x as i128 - other.x as i128),
            y: saturate(self.y as i128 - other.y as i128),
        }
    }

    pub fn scaled(self, k: i64) -> (r: Vec2)
        ensures
            r == self.scaled_spec(k as int),
    {
        Vec2 { x: fixed_mul(self.x, k), y: fixed_mul(self.y, k) }
    }

    pub fn perpendicular(self) -> (r: Vec2)
        ensures
            r == self.perpendicular_spec(),
    {
        Vec2 { x: saturate(-(self.y as i128)), y: self.x }
    }

    pub fn dot(self, other: Vec2) -> (r: i64)
        ensures
            r == self.dot_spec(other),
    {
        let px = wide_mul(self.x, other.x);
        let py = wide_mul(self.y, other.y);
        if px == 0x4000_0000_0000_0000_0000_0000_0000_0000
            && py == 0x4000_0000_0000_0000_0000_0000_0000_0000 {
            // The one sum that does not fit in 128 bits; its quotient is far
            // beyond 64 bits.
            i64::MAX
        } else {
            saturate((px + py) / (SCALE as i128))
        }
    }

    pub fn norm_squared(self) -> (r: u128)
        ensures
            r == self.norm_squared_spec(),
    {
        let px = wide_mul(self.x, self.x);
        let py = wide_mul(self.y, self.y);
        assert(self.x * self.x >= 0 && self.y * self.y >= 0) by (nonlinear_arith);
        px as u128 + py as u128
    }

    pub fn norm(self) -> (r: u64)
        ensures
            r == self.norm_spec(),
            is_floor_sqrt(self.norm_squared_spec(), r as int),
    {
        isqrt(self.norm_squared())
    }

    pub fn normalized(self, min_norm: u64) -> (r: Vec2)
        ensures
            r == self.normalized_spec(min_norm as int),
    {
        let n = self.norm();
        if n <= min_norm || n == 0 {
            Vec2::zero()
        } else {
            let wx = wide_mul(self.x, SCALE);
            let wy = wide_mul(self.y, SCALE);
            Vec2 { x: saturate(wx / (n as i128)), y: saturate(wy / (n as i128)) }
        }
    }
}

/// No component of a vector is longer than the vector.
pub proof fn lemma_component_within_norm(v: Vec2, n: int)
    requires
        is_floor_sqrt(v.norm_squared_spec(), n),
    ensures
        -n <= v.x <= n,
        -n <= v.y <= n,
{
    let x = v.x as int;
    let y = v.y as int;
    assert(y * y >= 0 && x * x >= 0) by (nonlinear_arith);
    if x > n {
        assert(x * x >= (n + 1) * (n + 1)) by (nonlinear_arith)
            requires
                x >= n + 1,
                n >= 0,
        ;
    }
    if x < -n {
        assert(x * x >= (n + 1) * (n + 1)) by (nonlinear_arith)
            requires
                -x >= n + 1,
                n >= 0,
        ;
    }
    if y > n {
        assert(y * y >= (n + 1) * (n + 1)) by (nonlinear_arith)
            requires
                y >= n + 1,
                n >= 0,
        ;
    }
    if y < -n {
        assert(y * y >= (n + 1) * (n + 1)) by (nonlinear_arith)
            requires
                -y >= n + 1,
                n >= 0,
        ;
    }
}

/// A normalized vector has no component beyond one unit.
pub proof fn lemma_normalized_within_unit(v: Vec2, min_norm: int)
    ensures
        -SCALE <= v.normalized_spec(min_norm).x <= SCALE,
        -SCALE <= v.normalized_spec(min_norm).y <= SCALE,
{
    let n = v.norm_spec();
    if !(n <= min_norm || n <= 0) {
        lemma_norm_exists(v);
        lemma_component_within_norm(v, n);
        lemma_scaled_quotient_within_unit(v.x as int, n);
        lemma_scaled_quotient_within_unit(v.y as int, n);
    }
}

/// Every vector of 64-bit components has a length.
pub proof fn lemma_norm_exists(v: Vec2)
    ensures
        is_floor_sqrt(v.norm_squared_spec(), v.norm_spec()),
{
    let m = v.norm_squared_spec();
    assert(m >= 0) by (nonlinear_arith)
        requires
            m == v.x * v.x + v.y * v.y,
    ;
    lemma_floor_sqrt_exists(m);
}

/// Where `|x| <= n`, the quotient of `x` units by `n` lies within one unit.
pub proof fn lemma_scaled_quotient_within_unit(x: int, n: int)
    requires
        n > 0,
        -n <= x <= n,
    ensures
        -SCALE <= div_toward_zero(x * SCALE, n) <= SCALE,
        sat(div_toward_zero(x * SCALE, n)) == div_toward_zero(x * SCALE, n),
        x > 0 ==> div_toward_zero(x * SCALE, n) >= 0,
        x < 0 ==> div_toward_zero(x * SCALE, n) <= 0,
        x == 0 ==> div_toward_zero(x * SCALE, n) == 0,
{
    let s = SCALE as int;
    if x >= 0 {
        assert(0 <= x * s <= n * s) by (nonlinear_arith)
            requires
                0 <= x <= n,
                s > 0,
        ;
        vstd::arithmetic::div_mod::lemma_div_is_ordered(x * s, n * s, n);
        vstd::arithmetic::div_mod::lemma_div_multiples_vanish(s, n);
        vstd::arithmetic::div_mod::lemma_div_pos_is_pos(x * s, n);
        assert(n * s == s * n) by (nonlinear_arith);
    } else {
        assert(0 <= (-x) * s <= n * s) by (nonlinear_arith)
            requires
                0 <= -x <= n,
                s > 0,
        ;
        assert(-(x * s) == (-x) * s) by (nonlinear_arith);
        vstd::arithmetic::div_mod::lemma_div_is_ordered((-x) * s, n * s, n);
        vstd::arithmetic::div_mod::lemma_div_multiples_vanish(s, n);
        vstd::arithmetic::div_mod::lemma_div_pos_is_pos((-x) * s, n);
        assert(n * s == s * n) by (nonlinear_arith);
    }
}

/// Normalizing a vector turns no component to the other side of zero.
pub proof fn lemma_normalized_keeps_signs(v: Vec2, min_norm: int)
    ensures
        v.x >= 0 ==> v.normalized_spec(min_norm).x >= 0,
        v.x <= 0 ==> v.normalized_spec(min_norm).x <= 0,
        v.y >= 0 ==> v.normalized_spec(min_norm).y >= 0,
        v.y <= 0 ==> v.normalized_spec(min_norm).y <= 0,
{
    let n = v.norm_spec();
    if !(n <= min_norm || n <= 0) {
        lemma_norm_exists(v);
        lemma_component_within_norm(v, n);
        lemma_scaled_quotient_within_unit(v.x as int, n);
        lemma_scaled_quotient_within_unit(v.y as int, n);
    }
}

/// The product of `x` and a factor `k` that is not negative lies on the same
/// side of zero as `x`.
pub proof fn lemma_fixed_mul_keeps_sign(x: int, k: int)
    requires
        k >= 0,
    ensures
        x >= 0 ==> fixed_mul_spec(x, k) >= 0,
        x <= 0 ==> fixed_mul_spec(x, k) <= 0,
{
    let s = SCALE as int;
    if x >= 0 {
        assert(x * k >= 0) by (nonlinear_arith)
            requires
                x >= 0,
                k >= 0,
        ;
        vstd::arithmetic::div_mod::lemma_div_pos_is_pos(x * k, s);
    }
    if x <= 0 {
        assert(x * k <= 0) by (nonlinear_arith)
            requires
                x <= 0,
                k >= 0,
        ;
        vstd::arithmetic::div_mod::lemma_div_pos_is_pos(-(x * k), s);
    }
}

/// The product of a factor `k` that is not negative and an `x` of at most
/// one unit in magnitude is at most `k` in magnitude.
pub proof fn lemma_fixed_mul_of_unit(x: int, k: int)
    requires
        0 <= k <= i64::MAX,
        -SCALE <= x <= SCALE,
    ensures
        -k <= fixed_mul_spec(x, k) <= k,
        fixed_mul_spec(x, k) == div_toward_zero(x * k, SCALE as int),
{
    let s = SCALE as int;
    lemma_fixed_mul_keeps_sign(x, k);
    if x >= 0 {
        assert(0 <= x * k <= k * s) by (nonlinear_arith)
            requires
                0 <= x <= s,
                k >= 0,
        ;
        vstd::arithmetic::div_mod::lemma_div_is_ordered(x * k, k * s, s);
        vstd::arithmetic::div_mod::lemma_div_multiples_vanish(k, s);
        assert(k * s == s * k) by (nonlinear_arith);
    } else {
        assert(0 <= -(x * k) <= k * s) by (nonlinear_arith)
            requires
                -s <= x <= 0,
                k >= 0,
        ;
        vstd::arithmetic::div_mod::lemma_div_is_ordered(-(x * k), k * s, s);
        vstd::arithmetic::div_mod::lemma_div_multiples_vanish(k, s);
        assert(k * s == s * k) by (nonlinear_arith);
    }
}

/// Multiplying a vector by a factor that is not negative turns no component
/// to the other side of zero.
pub proof fn lemma_scaled_keeps_signs(v: Vec2, k: int)
    requires
        k >= 0,
    ensures
        v.x >= 0 ==> v.scaled_spec(k).x >= 0,
        v.x <= 0 ==> v.scaled_spec(k).x <= 0,
        v.y >= 0 ==> v.scaled_spec(k).y >= 0,
        v.y <= 0 ==> v.scaled_spec(k).y <= 0,
{
    lemma_fixed_mul_keeps_sign(v.x as int, k);
    lemma_fixed_mul_keeps_sign(v.y as int, k);
}

/// A vector with no component beyond one unit, multiplied by a strength, has
/// no component beyond that strength.
pub proof fn lemma_scaled_unit_within_strength(v: Vec2, k: int)
    requires
        0 <= k <= i64::MAX,
        -SCALE <= v.x <= SCALE,
        -SCALE <= v.y <= SCALE,
    ensures
        -k <= v.scaled_spec(k).x <= k,
        -k <= v.scaled_spec(k).y <= k,
{
    lemma_fixed_mul_of_unit(v.x as int, k);
    lemma_fixed_mul_of_unit(v.y as int, k);
}

/// How far a quotient rounded toward zero can fall short: with `q` the
/// quotient of `p` by `n`, the square of `q * n` is at most the square of
/// `p` and falls short of it by at most `2 * n * |p|`.
pub proof fn lemma_quotient_square_brackets(p: int, n: int)
    requires
        n > 0,
    ensures
        div_toward_zero(p, n) * div_toward_zero(p, n) * (n * n) <= p * p,
        div_toward_zero(p, n) * div_toward_zero(p, n) * (n * n) + 2 * n * magnitude_spec(p) >= p
            * p,
{
    let q = div_toward_zero(p, n);
    let ap = magnitude_spec(p);
    let aq = ap / n;
    vstd::arithmetic::div_mod::lemma_fundamental_div_mod(ap, n);
    vstd::arithmetic::div_mod::lemma_mod_bound(ap, n);
    vstd::arithmetic::div_mod::lemma_div_pos_is_pos(ap, n);
    let t = aq * n;
    assert(t == n * aq) by (nonlinear_arith)
        requires
            t == aq * n,
    ;
    assert(0 <= t <= ap && ap < t + n);
    assert(q * q == aq * aq) by (nonlinear_arith)
        requires
            q == aq || q == -aq,
    ;
    assert(q * q * (n * n) == t * t) by (nonlinear_arith)
        requires
            q * q == aq * aq,
            t == aq * n,
    ;
    assert(p * p == ap * ap) by (nonlinear_arith)
        requires
            ap == p || ap == -p,
    ;
    assert(t * t <= ap * ap) by (nonlinear_arith)
        requires
            0 <= t <= ap,
    ;
    assert(t * t + 2 * n * ap >= ap * ap) by (nonlinear_arith)
        requires
            0 <= t <= ap,
            ap < t + n,
            n > 0,
    ;
}

/// A normalized vector is about one unit long: with `n` the length of `v`
/// and `w` the normalized `v`, the squared length of `w` times `n * n` is at
/// most the squared length of `v` in squared units, and the squared length
/// of `w` is at least one unit squared less four units.
pub proof fn lemma_normalized_length(v: Vec2, min_norm: int)
    requires
        v.norm_spec() > min_norm,
        v.norm_spec() > 0,
    ensures
        v.normalized_spec(min_norm).norm_squared_spec() * (v.norm_spec() * v.norm_spec())
            <= v.norm_squared_spec() * (SCALE * SCALE),
        v.normalized_spec(min_norm).norm_squared_spec() * (v.norm_spec() * v.norm_spec()) < (
        v.norm_spec() + 1) * (v.norm_spec() + 1) * (SCALE * SCALE),
        v.normalized_spec(min_norm).norm_squared_spec() >= SCALE * SCALE - 4 * SCALE,
{
    let n = v.norm_spec();
    let w = v.normalized_spec(min_norm);
    let s = SCALE as int;
    let x = v.x as int;
    let y = v.y as int;
    lemma_norm_exists(v);
    lemma_component_within_norm(v, n);
    lemma_scaled_quotient_within_unit(x, n);
    lemma_scaled_quotient_within_unit(y, n);
    let wx = div_toward_zero(x * s, n);
    let wy = div_toward_zero(y * s, n);
    assert(w.x == wx && w.y == wy);
    lemma_quotient_square_brackets(x * s, n);
    lemma_quotient_square_brackets(y * s, n);
    let m = v.norm_squared_spec();
    assert((x * s) * (x * s) + (y * s) * (y * s) == m * (s * s)) by (nonlinear_arith)
        requires
            m == x * x + y * y,
    ;
    let big = w.norm_squared_spec() * (n * n);
    assert(big == wx * wx * (n * n) + wy * wy * (n * n)) by (nonlinear_arith)
        requires
            big == (wx * wx + wy * wy) * (n * n),
    ;
    assert(m * (s * s) < (n + 1) * (n + 1) * (s * s)) by (nonlinear_arith)
        requires
            m < (n + 1) * (n + 1),
            s > 0,
    ;
    // the lower bound
    let ax = magnitude_spec(x * s);
    let ay = magnitude_spec(y * s);
    assert(ax <= n * s && ay <= n * s) by (nonlinear_arith)
        requires
            -n <= x <= n,
            -n <= y <= n,
            s > 0,
            ax == if x * s >= 0 {
                x * s
            } else {
                -(x * s)
            },
            ay == if y * s >= 0 {
                y * s
            } else {
                -(y * s)
            },
    ;
    assert(2 * n * ax + 2 * n * ay <= 4 * s * (n * n)) by (nonlinear_arith)
        requires
            0 <= ax <= n * s,
            0 <= ay <= n * s,
            n > 0,
    ;
    assert(m * (s * s) >= n * n * (s * s)) by (nonlinear_arith)
        requires
            m >= n * n,
            s > 0,
    ;
    assert(big >= (s * s - 4 * s) * (n * n)) by (nonlinear_arith)
        requires
            big + 2 * n * ax + 2 * n * ay >= m * (s * s),
            2 * n * ax + 2 * n * ay <= 4 * s * (n * n),
            m * (s * s) >= n * n * (s * s),
    ;
    assert(w.norm_squared_spec() >= s * s - 4 * s) by (nonlinear_arith)
        requires
            big == w.norm_squared_spec() * (n * n),
            big >= (s * s - 4 * s) * (n * n),
            n > 0,
    ;
}

/// A vector with no component beyond one unit, multiplied by a strength
/// that is not negative, is about that many times as long: the squared
/// length of the product, in squared units, is at most the squared length
/// of the vector times the squared strength, and falls short of it by at
/// most four units squared times the strength.
pub proof fn lemma_scaled_length(w: Vec2, k: int)
    requires
        0 <= k <= i64::MAX,
        -SCALE <= w.x <= SCALE,
        -SCALE <= w.y <= SCALE,
    ensures
        w.scaled_spec(k).norm_squared_spec() * (SCALE * SCALE) <= w.norm_squared_spec() * (k
            * k),
        w.scaled_spec(k).norm_squared_spec() * (SCALE * SCALE) + 4 * (SCALE * SCALE) * k
            >= w.norm_squared_spec() * (k * k),
{
    let s = SCALE as int;
    let x = w.x as int;
    let y = w.y as int;
    let r = w.scaled_spec(k);
    lemma_fixed_mul_of_unit(x, k);
    lemma_fixed_mul_of_unit(y, k);
    let rx = div_toward_zero(x * k, s);
    let ry = div_toward_zero(y * k, s);
    assert(r.x == rx && r.y == ry);
    lemma_quotient_square_brackets(x * k, s);
    lemma_quotient_square_brackets(y * k, s);
    let big = r.norm_squared_spec() * (s * s);
    assert(big == rx * rx * (s * s) + ry * ry * (s * s)) by (nonlinear_arith)
        requires
            big == (rx * rx + ry * ry) * (s * s),
    ;
    let m = w.norm_squared_spec();
    assert((x * k) * (x * k) + (y * k) * (y * k) == m * (k * k)) by (nonlinear_arith)
        requires
            m == x * x + y * y,
    ;
    let ax = magnitude_spec(x * k);
    let ay = magnitude_spec(y * k);
    assert(ax <= s * k && ay <= s * k) by (nonlinear_arith)
        requires
            -s <= x <= s,
            -s <= y <= s,
            k >= 0,
            ax == if x * k >= 0 {
                x * k
            } else {
                -(x * k)
            },
            ay == if y * k >= 0 {
                y * k
            } else {
                -(y * k)
            },
    ;
    assert(2 * s * ax + 2 * s * ay <= 4 * (s * s) * k) by (nonlinear_arith)
        requires
            0 <= ax <= s * k,
            0 <= ay <= s * k,
            s > 0,
    ;
}

} // verus!
