//! Signed 64-bit fixed-point arithmetic with 32 fractional bits.
//!
//! A raw value `x: i64` stands for the rational number `x / 2^32`. All
//! operations are total: results outside the representable range saturate at
//! `i64::MIN` / `i64::MAX`, the fixed-point analogue of the floating-point
//! range limits. Division by zero saturates by the sign of the dividend.

use vstd::prelude::*;

verus! {

/// Raw representation of 1.0.
pub const FX_ONE: i64 = 4294967296;

/// Raw threshold equivalent to the real bound 1e-8 (`floor(1e-8 * 2^32) + 1`):
/// a raw magnitude strictly below it means the value is below 1e-8.
pub const FX_NEAR_ZERO: i64 = 43;

/// Clamp an unbounded integer into the `i64` range.
pub open spec fn sat64(x: int) -> int {
    if x > i64::MAX as int {
        i64::MAX as int
    } else if x < i64::MIN as int {
        i64::MIN as int
    } else {
        x
    }
}

pub open spec fn abs_i(x: int) -> int {
    if x < 0 {
        -x
    } else {
        x
    }
}

/// Division truncated toward zero (the rounding of the executable code);
/// division by zero yields zero.
pub open spec fn tdiv(a: int, b: int) -> int {
    if b == 0 {
        0
    } else {
        let q = abs_i(a) / abs_i(b);
        if (a < 0) != (b < 0) {
            -q
        } else {
            q
        }
    }
}

pub open spec fn fx_add_s(a: int, b: int) -> int {
    sat64(a + b)
}

pub open spec fn fx_sub_s(a: int, b: int) -> int {
    sat64(a - b)
}

pub open spec fn fx_neg_s(a: int) -> int {
    sat64(-a)
}

pub open spec fn fx_mul_s(a: int, b: int) -> int {
    sat64(tdiv(a * b, FX_ONE as int))
}

pub open spec fn fx_div_s(a: int, b: int) -> int {
    if b == 0 {
        if a > 0 {
            i64::MAX as int
        } else if a < 0 {
            i64::MIN as int
        } else {
            0
        }
    } else {
        sat64(tdiv(a * (FX_ONE as int), b))
    }
}

/// A whole number as a fixed-point value, saturating.
pub open spec fn fx_int_s(n: int) -> int {
    sat64(n * (FX_ONE as int))
}

/// Largest multiple of `FX_ONE` that is at most `a`: the fixed-point floor.
pub open spec fn fx_floor_s(a: int) -> int {
    (a / (FX_ONE as int)) * (FX_ONE as int)
}

pub open spec fn fx_min_s(a: int, b: int) -> int {
    if a < b {
        a
    } else {
        b
    }
}

pub open spec fn fx_max_s(a: int, b: int) -> int {
    if a > b {
        a
    } else {
        b
    }
}

pub open spec fn fx_clamp_s(x: int, lo: int, hi: int) -> int {
    if x < lo {
        lo
    } else if x > hi {
        hi
    } else {
        x
    }
}

/// Integer square root, `floor(sqrt(n))`.
pub open spec fn isqrt_s(n: nat) -> nat
    decreases n,
{
    if n == 0 {
        0
    } else {
        let r = isqrt_s((n - 1) as nat);
        if (r + 1) * (r + 1) <= n {
            r + 1
        } else {
            r
        }
    }
}

/// Fixed-point square root: `floor(sqrt(a / 2^32) * 2^32)`; zero for
/// non-positive input (where the real square root is undefined or zero).
pub open spec fn fx_sqrt_s(a: int) -> int {
    if a <= 0 {
        0
    } else {
        isqrt_s((a * (FX_ONE as int)) as nat) as int
    }
}

pub proof fn lemma_isqrt_bounds(n: nat)
    ensures
        isqrt_s(n) * isqrt_s(n) <= n,
        n < (isqrt_s(n) + 1) * (isqrt_s(n) + 1),
    decreases n,
{
    if n > 0 {
        lemma_isqrt_bounds((n - 1) as nat);
        let p = isqrt_s((n - 1) as nat);
        assert(isqrt_s(n) == if (p + 1) * (p + 1) <= n {
            p + 1
        } else {
            p
        });
        assert(p * p <= n - 1);
        assert(n - 1 < (p + 1) * (p + 1));
        if (p + 1) * (p + 1) <= n {
            assert(isqrt_s(n) == p + 1);
            assert(n < (p + 2) * (p + 2)) by (nonlinear_arith)
                requires
                    n <= (p + 1) * (p + 1),
                    p >= 0,
            ;
            assert(n < (isqrt_s(n) + 1) * (isqrt_s(n) + 1));
        } else {
            assert(isqrt_s(n) == p);
            assert(p * p <= n);
        }
    } else {
        assert(n == 0);
        assert(isqrt_s(n) == 0);
        assert(n < (isqrt_s(n) + 1) * (isqrt_s(n) + 1)) by (nonlinear_arith)
            requires
                n == 0,
                isqrt_s(n) == 0,
        ;
    }
}

pub proof fn lemma_isqrt_unique(n: nat, r: nat)
    requires
        r * r <= n,
        n < (r + 1) * (r + 1),
    ensures
        r == isqrt_s(n),
{
    let i = isqrt_s(n);
    lemma_isqrt_bounds(n);
    if r < i {
        assert((r + 1) * (r + 1) <= i * i) by (nonlinear_arith)
            requires r + 1 <= i;
        assert(false);
    }
    if i < r {
        assert((i + 1) * (i + 1) <= r * r) by (nonlinear_arith)
            requires i + 1 <= r;
        assert(false);
    }
}

/// Truncated division negates exactly with its dividend.
pub proof fn lemma_tdiv_neg(x: int, b: int)
    requires
        b > 0,
    ensures
        tdiv(-x, b) == -tdiv(x, b),
{
    assert(abs_i(-x) == abs_i(x));
}

/// The magnitude of a truncated quotient is the quotient of the magnitude.
pub proof fn lemma_tdiv_mag(x: int, b: int)
    requires
        b > 0,
    ensures
        abs_i(tdiv(x, b)) == abs_i(x) / b,
{
    vstd::arithmetic::div_mod::lemma_div_pos_is_pos(abs_i(x), b);
}

/// The fixed-point square root of any representable value is nonnegative
/// and far inside the representable range.
pub proof fn lemma_fx_sqrt_range(x: int)
    requires
        x <= 0x7fffffffffffffff,
    ensures
        0 <= fx_sqrt_s(x) < 0x1000000000000,
{
    if x > 0 {
        let n = (x * (FX_ONE as int)) as nat;
        lemma_isqrt_bounds(n);
        let r = isqrt_s(n);
        assert(x * (FX_ONE as int) < 0x1000000000000 * 0x1000000000000) by (nonlinear_arith)
            requires
                0 < x <= 0x7fffffffffffffff,
        ;
        if r >= 0x1000000000000 {
            assert(0x1000000000000 * 0x1000000000000 <= r * r) by (nonlinear_arith)
                requires
                    r >= 0x1000000000000,
            ;
            assert(false);
        }
    }
}

/// The integer square root never decreases when its argument grows.
pub proof fn lemma_isqrt_monotone(n: nat, m: nat)
    requires
        n <= m,
    ensures
        isqrt_s(n) <= isqrt_s(m),
{
    lemma_isqrt_bounds(n);
    lemma_isqrt_bounds(m);
    let a = isqrt_s(n);
    let b = isqrt_s(m);
    if a > b {
        assert((b + 1) * (b + 1) <= a * a) by (nonlinear_arith)
            requires
                b + 1 <= a,
        ;
        assert(false);
    }
}

/// A value below one has a square root below one.
pub proof fn lemma_fx_sqrt_lt_one(x: int)
    requires
        x < FX_ONE as int,
    ensures
        fx_sqrt_s(x) < FX_ONE as int,
{
    if x > 0 {
        let n = (x * (FX_ONE as int)) as nat;
        lemma_isqrt_bounds(n);
        let r = isqrt_s(n);
        assert(x * (FX_ONE as int) < (FX_ONE as int) * (FX_ONE as int)) by (nonlinear_arith)
            requires
                0 < x < FX_ONE as int,
        ;
        if r >= FX_ONE as int {
            assert((FX_ONE as int) * (FX_ONE as int) <= r * r) by (nonlinear_arith)
                requires
                    r >= FX_ONE as int,
            ;
            assert(false);
        }
    }
}

/// Magnitude of a signed value as an unsigned one.
pub fn abs64(x: i64) -> (r: u64)
    ensures
        r as int == abs_i(x as int),
{
    if x >= 0 {
        x as u64
    } else if x == i64::MIN {
        9223372036854775808u64
    } else {
        (-x) as u64
    }
}

/// Saturate a magnitude and sign into the `i64` range.
fn sat_from_mag(mag: u128, neg: bool) -> (r: i64)
    ensures
        r as int == sat64(if neg { -(mag as int) } else { mag as int }),
{
    if neg {
        if mag >= 9223372036854775808u128 {
            i64::MIN
        } else {
            -(mag as i64)
        }
    } else {
        if mag > i64::MAX as u128 {
            i64::MAX
        } else {
            mag as i64
        }
    }
}

proof fn lemma_abs_mul(a: int, b: int)
    ensures
        abs_i(a * b) == abs_i(a) * abs_i(b),
        a * b < 0 ==> ((a < 0) != (b < 0)),
        ((a < 0) != (b < 0)) && a != 0 && b != 0 ==> a * b < 0,
{
    assert(abs_i(a * b) == abs_i(a) * abs_i(b)
        && (a * b < 0 ==> ((a < 0) != (b < 0)))
        && (((a < 0) != (b < 0)) && a != 0 && b != 0 ==> a * b < 0)) by (nonlinear_arith);
}

/// Saturating fixed-point addition.
pub fn fx_add(a: i64, b: i64) -> (r: i64)
    ensures
        r as int == fx_add_s(a as int, b as int),
{
    let s: i128 = a as i128 + b as i128;
    if s > i64::MAX as i128 {
        i64::MAX
    } else if s < i64::MIN as i128 {
        i64::MIN
    } else {
        s as i64
    }
}

/// Saturating fixed-point subtraction.
pub fn fx_sub(a: i64, b: i64) -> (r: i64)
    ensures
        r as int == fx_sub_s(a as int, b as int),
{
    let s: i128 = a as i128 - b as i128;
    if s > i64::MAX as i128 {
        i64::MAX
    } else if s < i64::MIN as i128 {
        i64::MIN
    } else {
        s as i64
    }
}

/// Saturating negation.
pub fn fx_neg(a: i64) -> (r: i64)
    ensures
        r as int == fx_neg_s(a as int),
{
    if a == i64::MIN {
        i64::MAX
    } else {
        -a
    }
}

pub fn fx_abs(a: i64) -> (r: i64)
    ensures
        r as int == sat64(abs_i(a as int)),
{
    if a < 0 {
        fx_neg(a)
    } else {
        a
    }
}

/// Fixed-point product, truncated toward zero and saturated.
pub fn fx_mul(a: i64, b: i64) -> (r: i64)
    ensures
        r as int == fx_mul_s(a as int, b as int),
{
    let neg: bool = (a < 0) != (b < 0);
    let ua: u64 = abs64(a);
    let ub: u64 = abs64(b);
    proof {
        assert((ua as int) * (ub as int) <= u128::MAX) by (nonlinear_arith)
            requires
                ua as int <= 0x8000000000000000,
                ub as int <= 0x8000000000000000,
        ;
    }
    let mag: u128 = (ua as u128) * (ub as u128) / (FX_ONE as u128);
    proof {
        lemma_abs_mul(a as int, b as int);
        assert((ua as u128) * (ub as u128) == abs_i((a as int) * (b as int))) by (nonlinear_arith)
            requires
                ua as int == abs_i(a as int),
                ub as int == abs_i(b as int),
                abs_i((a as int) * (b as int)) == abs_i(a as int) * abs_i(b as int);
    }
    sat_from_mag(mag, neg)
}

/// Fixed-point quotient, truncated toward zero and saturated; division by
/// zero saturates by the sign of the dividend.
pub fn fx_div(a: i64, b: i64) -> (r: i64)
    ensures
        r as int == fx_div_s(a as int, b as int),
{
    if b == 0 {
        if a > 0 {
            i64::MAX
        } else if a < 0 {
            i64::MIN
        } else {
            0
        }
    } else {
        let neg: bool = (a < 0) != (b < 0);
        let ua: u64 = abs64(a);
        let ub: u64 = abs64(b);
        proof {
            assert((ua as int) * (FX_ONE as int) <= u128::MAX) by (nonlinear_arith)
                requires
                    ua as int <= 0x8000000000000000,
            ;
        }
        let mag: u128 = (ua as u128) * (FX_ONE as u128) / (ub as u128);
        proof {
            lemma_abs_mul(a as int, FX_ONE as int);
            assert((ua as u128) * (FX_ONE as u128) == abs_i((a as int) * (FX_ONE as int)))
                by (nonlinear_arith)
                requires
                    ua as int == abs_i(a as int),
                    abs_i((a as int) * (FX_ONE as int)) == abs_i(a as int) * abs_i(FX_ONE as int);
        }
        sat_from_mag(mag, neg)
    }
}

/// Whole number scaled into fixed point, saturating.
pub fn fx_of_int(n: i64) -> (r: i64)
    ensures
        r as int == fx_int_s(n as int),
        r as int == sat64((n as int) * (FX_ONE as int)),
{
    let neg: bool = n < 0;
    let un: u64 = abs64(n);
    proof {
        assert((un as int) * (FX_ONE as int) <= u128::MAX) by (nonlinear_arith)
            requires
                un as int <= 0x8000000000000000,
        ;
    }
    let mag: u128 = (un as u128) * (FX_ONE as u128);
    proof {
        lemma_abs_mul(n as int, FX_ONE as int);
        assert((un as u128) * (FX_ONE as u128) == abs_i((n as int) * (FX_ONE as int)))
            by (nonlinear_arith)
            requires
                un as int == abs_i(n as int),
                abs_i((n as int) * (FX_ONE as int)) == abs_i(n as int) * abs_i(FX_ONE as int);
        if neg {
            assert((n as int) * (FX_ONE as int) <= 0) by (nonlinear_arith)
                requires n < 0;
        } else {
            assert((n as int) * (FX_ONE as int) >= 0) by (nonlinear_arith)
                requires n >= 0;
        }
    }
    sat_from_mag(mag, neg)
}

/// The fixed-point value of the fraction `num / den`.
pub fn fx_ratio(num: i64, den: i64) -> (r: i64)
    ensures
        r as int == fx_div_s(num as int, den as int),
{
    fx_div(num, den)
}

pub fn fx_min(a: i64, b: i64) -> (r: i64)
    ensures
        r as int == fx_min_s(a as int, b as int),
{
    if a < b {
        a
    } else {
        b
    }
}

pub fn fx_max(a: i64, b: i64) -> (r: i64)
    ensures
        r as int == fx_max_s(a as int, b as int),
{
    if a > b {
        a
    } else {
        b
    }
}

/// Round down to the nearest whole number (a multiple of `FX_ONE`).
pub fn fx_floor(a: i64) -> (r: i64)
    ensures
        r as int == fx_floor_s(a as int),
{
    let fx: u64 = FX_ONE as u64;
    if a >= 0 {
        let q: u64 = (a as u64) / fx;
        proof {
            vstd::arithmetic::div_mod::lemma_fundamental_div_mod(a as int, FX_ONE as int);
        }
        (q * fx) as i64
    } else {
        let m: u64 = abs64(a);
        let c: u64 = (m + fx - 1) / fx;
        proof {
            vstd::arithmetic::div_mod::lemma_fundamental_div_mod(
                (m + fx - 1) as int,
                FX_ONE as int,
            );
            vstd::arithmetic::div_mod::lemma_div_is_ordered(
                (m + fx - 1) as int,
                9223372041149743103,
                FX_ONE as int,
            );
            vstd::arithmetic::div_mod::lemma_div_is_ordered(0, (m + fx - 1) as int, FX_ONE as int);
            let ci = c as int;
            let s = FX_ONE as int;
            let mi = m as int;
            assert(ci * s >= mi);
            assert(ci * s < mi + s);
            vstd::arithmetic::div_mod::lemma_fundamental_div_mod_converse(
                a as int,
                s,
                -ci,
                ci * s - mi,
            );
            assert((a as int) / s == -ci);
            assert(ci * s <= 0x8000000000000000);
            assert((c as u128) * (FX_ONE as u128) == ci * s) by (nonlinear_arith)
                requires
                    c as int == ci,
                    ci >= 0,
                    ci * s <= 0x8000000000000000,
                    s == FX_ONE as int,
            ;
        }
        sat_from_mag((c as u128) * (FX_ONE as u128), true)
    }
}

/// Fixed-point square root by binary search; zero for non-positive input.
pub fn fx_sqrt(a: i64) -> (r: i64)
    ensures
        r as int == fx_sqrt_s(a as int),
{
    if a <= 0 {
        return 0;
    }
    proof {
        assert((a as int) * (FX_ONE as int) < 281474976710656 * 281474976710656)
            by (nonlinear_arith)
            requires
                0 < a as int <= 0x7fffffffffffffff,
        ;
    }
    let n: u128 = (a as u128) * (FX_ONE as u128);
    let mut lo: u128 = 0;
    let mut hi: u128 = 281474976710656u128;
    while lo + 1 < hi
        invariant
            lo < hi,
            hi <= 281474976710656,
            (lo as int) * (lo as int) <= n as int,
            (n as int) < (hi as int) * (hi as int),
        decreases hi - lo,
    {
        let mid: u128 = lo + (hi - lo) / 2;
        proof {
            assert((mid as int) * (mid as int) <= 281474976710656 * 281474976710656)
                by (nonlinear_arith)
                requires
                    0 <= mid as int <= 281474976710656,
            ;
        }
        if mid * mid <= n {
            lo = mid;
        } else {
            hi = mid;
        }
    }
    proof {
        lemma_isqrt_unique(n as nat, lo as nat);
        assert((a as int) * (FX_ONE as int) == n as int);
    }
    lo as i64
}

/// Whole part of a fixed-point value, truncated toward zero.
pub fn fx_to_int_trunc(a: i64) -> (r: i64)
    ensures
        r as int == tdiv(a as int, FX_ONE as int),
{
    let fx: u64 = FX_ONE as u64;
    let m: u64 = abs64(a);
    let q: u64 = m / fx;
    if a >= 0 {
        q as i64
    } else {
        -(q as i64)
    }
}

/// Whole part of a fixed-point value, rounded down (the floor), as a plain
/// integer.
pub fn fx_to_int_floor(a: i64) -> (r: i64)
    ensures
        r as int == (a as int) / (FX_ONE as int),
        -2147483648 <= r as int <= 2147483647,
{
    let fx: u64 = FX_ONE as u64;
    if a >= 0 {
        proof {
            vstd::arithmetic::div_mod::lemma_div_is_ordered(
                a as int,
                0x7fffffffffffffff,
                FX_ONE as int,
            );
            vstd::arithmetic::div_mod::lemma_div_is_ordered(0, a as int, FX_ONE as int);
        }
        ((a as u64) / fx) as i64
    } else {
        let m: u64 = abs64(a);
        let c: u64 = (m + fx - 1) / fx;
        proof {
            vstd::arithmetic::div_mod::lemma_fundamental_div_mod(
                (m + fx - 1) as int,
                FX_ONE as int,
            );
            vstd::arithmetic::div_mod::lemma_div_is_ordered(
                (m + fx - 1) as int,
                9223372041149743103,
                FX_ONE as int,
            );
            vstd::arithmetic::div_mod::lemma_div_is_ordered(0, (m + fx - 1) as int, FX_ONE as int);
            let ci = c as int;
            let s = FX_ONE as int;
            let mi = m as int;
            assert(ci * s >= mi);
            assert(ci * s < mi + s);
            vstd::arithmetic::div_mod::lemma_fundamental_div_mod_converse(
                a as int,
                s,
                -ci,
                ci * s - mi,
            );
        }
        -(c as i64)
    }
}

/// Remainder of `a` modulo a positive `m`, always in `[0, m)`.
pub fn emod(a: i64, m: i64) -> (r: i64)
    requires
        m > 0,
    ensures
        r as int == (a as int) % (m as int),
        0 <= r < m,
{
    let um: u64 = m as u64;
    if a >= 0 {
        let r: u64 = (a as u64) % um;
        r as i64
    } else {
        let ma: u64 = abs64(a);
        let rm: u64 = ma % um;
        let q: u64 = ma / um;
        proof {
            vstd::arithmetic::div_mod::lemma_fundamental_div_mod(ma as int, m as int);
            let qi = q as int;
            let mi = m as int;
            assert((-qi) * mi == -(mi * qi) && (-qi - 1) * mi == -(mi * qi) - mi)
                by (nonlinear_arith);
            if rm == 0 {
                vstd::arithmetic::div_mod::lemma_fundamental_div_mod_converse(
                    a as int,
                    m as int,
                    -qi,
                    0,
                );
            } else {
                vstd::arithmetic::div_mod::lemma_fundamental_div_mod_converse(
                    a as int,
                    m as int,
                    -qi - 1,
                    (m as int) - (rm as int),
                );
            }
        }
        if rm == 0 {
            0
        } else {
            m - (rm as i64)
        }
    }
}

/// Fractional part: `a` minus its floor, always in `[0, FX_ONE)`.
pub fn fx_fract(a: i64) -> (r: i64)
    ensures
        r as int == (a as int) % (FX_ONE as int),
        0 <= (r as int) && (r as int) < (FX_ONE as int),
{
    let f: i64 = fx_floor(a);
    proof {
        vstd::arithmetic::div_mod::lemma_fundamental_div_mod(a as int, FX_ONE as int);
    }
    fx_sub(a, f)
}

pub fn fx_clamp(x: i64, lo: i64, hi: i64) -> (r: i64)
    ensures
        r as int == fx_clamp_s(x as int, lo as int, hi as int),
{
    if x < lo {
        lo
    } else if x > hi {
        hi
    } else {
        x
    }
}

} // verus!
