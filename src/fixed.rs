//! Fixed-point arithmetic. Positions and settings (world coordinates, zoom,
//! pan, tile sizes, distances, noise sample points) hold a real number `v`
//! as the integer `v * MICRO`; noise values, climate quantities, noise-field
//! factors and colours hold it as `v * ONE`, a finer unit.

use vstd::prelude::*;

verus! {

/// Unit of positions and settings: millionths.
pub const MICRO: i64 = 1_000_000;

/// Unit of noise values, climate quantities and colours: 10^-12.
pub const ONE: i128 = 1_000_000_000_000;

/// A position in millionths times this is the same real in units of `ONE`.
pub const MICRO_TO_ONE: i128 = 1_000_000;

/// Product of two numbers in units of `ONE`, rounded down.
pub open spec fn fx_mul(a: int, b: int) -> int {
    (a * b) / (ONE as int)
}

/// Product of two numbers in millionths, rounded down.
pub open spec fn micro_mul(a: int, b: int) -> int {
    (a * b) / (MICRO as int)
}

/// Quotient of two numbers in millionths, rounded down; `b` is positive.
pub open spec fn micro_div(a: int, b: int) -> int {
    (a * (MICRO as int)) / b
}

/// `v` limited to the closed range `[lo, hi]`.
pub open spec fn clamp(v: int, lo: int, hi: int) -> int {
    if v < lo {
        lo
    } else if v > hi {
        hi
    } else {
        v
    }
}

pub open spec fn abs(v: int) -> int {
    if v < 0 {
        -v
    } else {
        v
    }
}

/// The largest magnitude of an operand of `mul` and `div`.
pub const OPERAND_MAX: i128 = 0x7fff_ffff_ffff_ffff;

/// Floor division of an integer by a positive integer.
pub fn floor_div(a: i128, b: i128) -> (r: i128)
    requires
        b > 0,
    ensures
        r == a / b,
{
    if a >= 0 {
        a / b
    } else {
        let n: i128 = -(a + 1);
        let q: i128 = n / b;
        proof {
            lemma_floor_div_negative(a as int, b as int, q as int);
        }
        -q - 1
    }
}

proof fn lemma_floor_div_negative(a: int, b: int, q: int)
    requires
        a < 0,
        b > 0,
        q == (-(a + 1)) / b,
    ensures
        a / b == -q - 1,
{
    let n = -(a + 1);
    let rem = n % b;
    vstd::arithmetic::div_mod::lemma_fundamental_div_mod(n, b);
    assert(n == b * q + rem);
    assert(0 <= rem < b);
    assert(a == b * (-q - 1) + (b - 1 - rem)) by (nonlinear_arith)
        requires
            n == b * q + rem,
            a == -n - 1,
    ;
    vstd::arithmetic::div_mod::lemma_fundamental_div_mod_converse(a, b, -q - 1, b - 1 - rem);
}

/// Product of two numbers in millionths, rounded down.
pub fn mul_micro(a: i128, b: i128) -> (r: i128)
    requires
        -OPERAND_MAX <= a <= OPERAND_MAX,
        -OPERAND_MAX <= b <= OPERAND_MAX,
    ensures
        r == micro_mul(a as int, b as int),
{
    proof {
        lemma_product_fits(a as int, b as int);
    }
    floor_div(a * b, MICRO as i128)
}

/// Quotient of two numbers in millionths, rounded down.
pub fn div_micro(a: i128, b: i128) -> (r: i128)
    requires
        -OPERAND_MAX <= a <= OPERAND_MAX,
        b > 0,
    ensures
        r == micro_div(a as int, b as int),
{
    proof {
        lemma_product_fits(a as int, MICRO as int);
    }
    floor_div(a * (MICRO as i128), b)
}

proof fn lemma_product_fits(a: int, b: int)
    requires
        -OPERAND_MAX <= a <= OPERAND_MAX,
        -OPERAND_MAX <= b <= OPERAND_MAX,
    ensures
        -0x7fff_ffff_ffff_ffff_0000_0000_0000_0000 <= a * b <= 0x7fff_ffff_ffff_ffff_0000_0000_0000_0000,
{
    assert(-OPERAND_MAX * OPERAND_MAX <= a * b <= OPERAND_MAX * OPERAND_MAX) by (nonlinear_arith)
        requires
            -OPERAND_MAX <= a <= OPERAND_MAX,
            -OPERAND_MAX <= b <= OPERAND_MAX,
    ;
}

/// A quotient by a divisor of at least `d_min` is bounded by the numerator's
/// bound over `d_min`, give or take one.
pub proof fn lemma_div_bound(n: int, n_max: int, d: int, d_min: int)
    requires
        -n_max <= n <= n_max,
        0 < d_min <= d,
    ensures
        -(n_max / d_min) - 1 <= n / d <= n_max / d_min,
{
    if n >= 0 {
        vstd::arithmetic::div_mod::lemma_div_is_ordered_by_denominator(n, d_min, d);
        vstd::arithmetic::div_mod::lemma_div_is_ordered(n, n_max, d_min);
        vstd::arithmetic::div_mod::lemma_div_pos_is_pos(n, d);
    } else {
        let m = -n;
        vstd::arithmetic::div_mod::lemma_div_is_ordered_by_denominator(m, d_min, d);
        vstd::arithmetic::div_mod::lemma_div_is_ordered(m, n_max, d_min);
        vstd::arithmetic::div_mod::lemma_fundamental_div_mod(n, d);
        vstd::arithmetic::div_mod::lemma_fundamental_div_mod(m, d);
        let q = n / d;
        let q2 = m / d;
        let r = n % d;
        let r2 = m % d;
        assert(q + q2 >= -1 && q <= 0) by (nonlinear_arith)
            requires
                d * q + r == n,
                d * q2 + r2 == m,
                m == -n,
                n < 0,
                0 <= r < d,
                0 <= r2 < d,
        ;
    }
}

/// Integer square root: the largest `r` with `r * r <= n`.
pub fn isqrt(n: i128) -> (r: i128)
    requires
        0 <= n <= 0x4_0000_0000_0000_0000_0000_0000_0000,
    ensures
        0 <= r <= 0x200_0000_0000_0000,
        r * r <= n < (r + 1) * (r + 1),
{
    let mut lo: i128 = 0;
    let mut hi: i128 = 0x200_0000_0000_0001;
    assert(hi * hi > 0x4_0000_0000_0000_0000_0000_0000_0000) by (nonlinear_arith)
        requires
            hi == 0x200_0000_0000_0001,
    ;
    while hi - lo > 1
        invariant
            0 <= lo < hi <= 0x200_0000_0000_0001,
            lo * lo <= n < hi * hi,
        decreases hi - lo,
    {
        let mid = lo + (hi - lo) / 2;
        assert(0 <= mid * mid <= 0x200_0000_0000_0001 * 0x200_0000_0000_0001) by (nonlinear_arith)
            requires
                0 <= mid <= 0x200_0000_0000_0001,
        ;
        if mid * mid <= n {
            lo = mid;
        } else {
            hi = mid;
        }
    }
    lo
}

/// Dividing by `c` and then by `d`, each rounded down, is dividing by `c * d`.
pub proof fn lemma_nested_floor(x: int, c: int, d: int)
    requires
        c > 0,
        d > 0,
    ensures
        (x / c) / d == x / (c * d),
{
    vstd::arithmetic::div_mod::lemma_fundamental_div_mod(x, c);
    let q1 = x / c;
    let r1 = x % c;
    vstd::arithmetic::div_mod::lemma_fundamental_div_mod(q1, d);
    let q2 = q1 / d;
    let r2 = q1 % d;
    assert(x == (c * d) * q2 + (c * r2 + r1) && 0 <= c * r2 + r1 < c * d) by (nonlinear_arith)
        requires
            x == c * q1 + r1,
            q1 == d * q2 + r2,
            0 <= r1 < c,
            0 <= r2 < d,
            c > 0,
            d > 0,
    ;
    vstd::arithmetic::div_mod::lemma_fundamental_div_mod_converse(x, c * d, q2, c * r2 + r1);
}

/// A common positive factor of numerator and divisor cancels.
pub proof fn lemma_cancel_factor(k: int, a: int, d: int)
    requires
        k > 0,
        d > 0,
    ensures
        (k * a) / (k * d) == a / d,
{
    vstd::arithmetic::div_mod::lemma_fundamental_div_mod(a, d);
    let q = a / d;
    let r = a % d;
    assert(k * a == (k * d) * q + k * r && 0 <= k * r < k * d) by (nonlinear_arith)
        requires
            a == d * q + r,
            0 <= r < d,
            k > 0,
    ;
    vstd::arithmetic::div_mod::lemma_fundamental_div_mod_converse(k * a, k * d, q, k * r);
}

} // verus!
