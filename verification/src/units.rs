use vstd::prelude::*;

verus! {

/// One world unit is `SCALE` fixed-point steps; every length, speed and
/// duration in the library is stored as an `i64` count of such steps.
pub const SCALE: i64 = 1000;

/// `SCALE * SCALE`, the divisor after multiplying two fixed-point values.
pub const SCALE_SQ: i64 = 1_000_000;

/// Largest magnitude accepted for configuration quantities: speeds, screen
/// dimensions, grid extents, water portions and growth durations.
pub const QMAX: i64 = 1_000_000;

/// Largest tick length accepted by the per-frame update functions.
pub const DT_MAX: i64 = 100_000;

/// Bound on every stored coordinate; wide enough that one tick of motion
/// from anywhere on screen stays inside it.
pub const PMAX: i64 = 200_000_000;

/// Lowest value soil moisture can reach: one tick of consumption below zero.
pub const WATER_FLOOR: i64 = -100_000_000;

/// Clamps `x` into the closed interval `[lo, hi]`.
pub open spec fn clamp_spec(x: int, lo: int, hi: int) -> int {
    if x < lo {
        lo
    } else if x > hi {
        hi
    } else {
        x
    }
}

/// Clamps `x` into the closed interval `[lo, hi]`.
pub fn clamp_i64(x: i64, lo: i64, hi: i64) -> (r: i64)
    requires
        lo <= hi,
    ensures
        r == clamp_spec(x as int, lo as int, hi as int),
{
    if x < lo {
        lo
    } else if x > hi {
        hi
    } else {
        x
    }
}

/// Fixed-point product of two nonnegative quantities.
pub fn scale_mul(a: i64, b: i64) -> (r: i64)
    requires
        0 <= a,
        0 <= b,
        a * b <= i64::MAX,
    ensures
        r == a * b / (SCALE as int),
        0 <= r <= a * b,
{
    proof {
        vstd::arithmetic::div_mod::lemma_div_nonincreasing(a * b, SCALE as int);
        vstd::arithmetic::div_mod::lemma_div_pos_is_pos(a * b, SCALE as int);
    }
    (a * b) / SCALE
}

/// Fixed-point product where the first factor may be negative: scales `a`
/// by `b / SCALE`, rounding the magnitude down.
pub open spec fn scale_mul_signed_spec(a: int, b: int) -> int {
    if a >= 0 {
        a * b / (SCALE as int)
    } else {
        -((-a) * b / (SCALE as int))
    }
}

/// Fixed-point product of a signed value with a nonnegative one.
pub fn scale_mul_signed(a: i64, b: i64) -> (r: i64)
    requires
        0 <= b,
        -i64::MAX <= a,
        a * b <= i64::MAX,
        -(i64::MAX as int) <= a * b,
    ensures
        r == scale_mul_signed_spec(a as int, b as int),
{
    if a >= 0 {
        let r = scale_mul(a, b);
        proof {
            vstd::arithmetic::div_mod::lemma_remainder_lower(a * b, SCALE as int);
            vstd::arithmetic::div_mod::lemma_remainder_upper(a * b, SCALE as int);
        }
        r
    } else {
        let neg = -a;
        proof {
            assert(neg * b == -(a * b)) by (nonlinear_arith)
                requires
                    neg == -(a as int),
            ;
        }
        let r = scale_mul(neg, b);
        proof {
            vstd::arithmetic::div_mod::lemma_remainder_lower(neg * b, SCALE as int);
            vstd::arithmetic::div_mod::lemma_remainder_upper(neg * b, SCALE as int);
        }
        -r
    }
}

/// The scaled product grows no faster than its first factor's bound.
pub proof fn lemma_scale_mul_signed_bounds(a: int, b: int, l: int)
    requires
        0 <= b,
        0 <= l,
        -l <= a <= l,
    ensures
        -(l * b / (SCALE as int)) <= scale_mul_signed_spec(a, b) <= l * b / (SCALE as int),
{
    if a >= 0 {
        assert(0 <= a * b <= l * b) by (nonlinear_arith)
            requires
                0 <= a <= l,
                0 <= b,
        ;
        vstd::arithmetic::div_mod::lemma_div_pos_is_pos(a * b, SCALE as int);
        vstd::arithmetic::div_mod::lemma_div_is_ordered(a * b, l * b, SCALE as int);
        vstd::arithmetic::div_mod::lemma_div_pos_is_pos(l * b, SCALE as int);
    } else {
        assert(0 <= (-a) * b <= l * b) by (nonlinear_arith)
            requires
                0 <= -a <= l,
                0 <= b,
        ;
        vstd::arithmetic::div_mod::lemma_div_pos_is_pos((-a) * b, SCALE as int);
        vstd::arithmetic::div_mod::lemma_div_is_ordered((-a) * b, l * b, SCALE as int);
        vstd::arithmetic::div_mod::lemma_div_pos_is_pos(l * b, SCALE as int);
    }
}

/// The share of a magnitude `s` that falls on a component `delta` of a
/// length `len`: `delta * s / len`, the magnitude rounded down.
pub open spec fn scaled_ratio_spec(delta: int, s: int, len: int) -> int {
    if delta >= 0 {
        delta * s / len
    } else {
        -((-delta) * s / len)
    }
}

pub fn scaled_ratio(delta: i64, s: i64, len: i64) -> (r: i64)
    requires
        0 < len < 600_000_000,
        0 <= s <= QMAX,
        -len <= delta <= len,
    ensures
        r == scaled_ratio_spec(delta as int, s as int, len as int),
        -s <= r <= s,
{
    if delta >= 0 {
        proof {
            assert(0 <= delta * s <= len * s) by (nonlinear_arith)
                requires
                    0 <= delta <= len,
                    0 <= s,
            ;
            assert(len * s <= 600_000_000_000_000_000int) by (nonlinear_arith)
                requires
                    0 < len < 600_000_000,
                    0 <= s <= 1_000_000,
            ;
            vstd::arithmetic::div_mod::lemma_div_pos_is_pos(delta * s, len as int);
            vstd::arithmetic::div_mod::lemma_div_is_ordered(delta * s, len * s, len as int);
            vstd::arithmetic::div_mod::lemma_div_multiples_vanish(s as int, len as int);
        }
        (delta * s) / len
    } else {
        let neg = -delta;
        proof {
            assert(0 <= neg * s <= len * s) by (nonlinear_arith)
                requires
                    0 <= neg <= len,
                    0 <= s,
            ;
            assert(len * s <= 600_000_000_000_000_000int) by (nonlinear_arith)
                requires
                    0 < len < 600_000_000,
                    0 <= s <= 1_000_000,
            ;
            vstd::arithmetic::div_mod::lemma_div_pos_is_pos(neg * s, len as int);
            vstd::arithmetic::div_mod::lemma_div_is_ordered(neg * s, len * s, len as int);
            vstd::arithmetic::div_mod::lemma_div_multiples_vanish(s as int, len as int);
        }
        -((neg * s) / len)
    }
}

/// The scaled share of a component never exceeds the magnitude shared
/// out.
pub proof fn lemma_scaled_ratio_bounds(delta: int, s: int, len: int)
    requires
        0 < len,
        0 <= s,
        -len <= delta <= len,
    ensures
        -s <= scaled_ratio_spec(delta, s, len) <= s,
{
    if delta >= 0 {
        assert(0 <= delta * s <= len * s) by (nonlinear_arith)
            requires
                0 <= delta <= len,
                0 <= s,
        ;
        vstd::arithmetic::div_mod::lemma_div_pos_is_pos(delta * s, len);
        vstd::arithmetic::div_mod::lemma_div_is_ordered(delta * s, len * s, len);
        vstd::arithmetic::div_mod::lemma_div_multiples_vanish(s, len);
    } else {
        assert(0 <= (-delta) * s <= len * s) by (nonlinear_arith)
            requires
                0 <= -delta <= len,
                0 <= s,
        ;
        vstd::arithmetic::div_mod::lemma_div_pos_is_pos((-delta) * s, len);
        vstd::arithmetic::div_mod::lemma_div_is_ordered((-delta) * s, len * s, len);
        vstd::arithmetic::div_mod::lemma_div_multiples_vanish(s, len);
    }
}

/// The floor of the square root of `n`.
pub open spec fn sqrt_floor(n: nat) -> nat
    decreases n,
{
    if n == 0 {
        0
    } else {
        let r = sqrt_floor((n - 1) as nat);
        if (r + 1) * (r + 1) <= n {
            r + 1
        } else {
            r
        }
    }
}

/// `sqrt_floor(n)` squares to at most `n`, and the next integer squares
/// to more than `n`.
pub proof fn lemma_sqrt_floor_bounds(n: nat)
    ensures
        sqrt_floor(n) * sqrt_floor(n) <= n,
        n < (sqrt_floor(n) + 1) * (sqrt_floor(n) + 1),
    decreases n,
{
    if n == 0 {
        let s = sqrt_floor(n);
        assert(s == 0);
        assert((s + 1) * (s + 1) == 1) by (nonlinear_arith)
            requires
                s == 0,
        ;
    } else {
        let m = (n - 1) as nat;
        let r = sqrt_floor(m);
        lemma_sqrt_floor_bounds(m);
        assert(r * r <= m);
        assert(m < (r + 1) * (r + 1));
        if (r + 1) * (r + 1) <= n {
            assert(sqrt_floor(n) == r + 1);
            assert(n <= (r + 1) * (r + 1));
            assert(n < (r + 1 + 1) * (r + 1 + 1)) by (nonlinear_arith)
                requires
                    n <= (r + 1) * (r + 1),
            ;
            assert(sqrt_floor(n) * sqrt_floor(n) <= n);
            assert(n < (sqrt_floor(n) + 1) * (sqrt_floor(n) + 1));
        } else {
            assert(sqrt_floor(n) == r);
            assert(sqrt_floor(n) * sqrt_floor(n) <= n);
            assert(n < (sqrt_floor(n) + 1) * (sqrt_floor(n) + 1));
        }
    }
}

/// Any `r` between the two square bounds is the floor square root of `n`.
pub proof fn lemma_sqrt_floor_unique(n: nat, r: nat)
    requires
        r * r <= n,
        n < (r + 1) * (r + 1),
    ensures
        r == sqrt_floor(n),
{
    let s = sqrt_floor(n);
    lemma_sqrt_floor_bounds(n);
    if r < s {
        assert((r + 1) * (r + 1) <= s * s) by (nonlinear_arith)
            requires
                r + 1 <= s,
        ;
    }
    if s < r {
        assert((s + 1) * (s + 1) <= r * r) by (nonlinear_arith)
            requires
                s + 1 <= r,
        ;
    }
}

/// Floor of the square root, by binary search.
pub fn isqrt_u64(n: u64) -> (r: u64)
    requires
        n <= 0x4000_0000_0000_0000,
    ensures
        r == sqrt_floor(n as nat),
        r * r <= n,
        n < (r + 1) * (r + 1),
{
    let mut lo: u64 = 0;
    let mut hi: u64 = 0x8000_0000;
    proof {
        assert(n < (0x8000_0000u64 + 1) * (0x8000_0000u64 + 1)) by (nonlinear_arith)
            requires
                n <= 0x4000_0000_0000_0000,
        ;
    }
    while lo < hi
        invariant
            lo <= hi <= 0x8000_0000,
            lo * lo <= n,
            n < (hi + 1) * (hi + 1),
        decreases hi - lo,
    {
        let mid = lo + (hi - lo + 1) / 2;
        proof {
            assert(mid * mid <= 0x8000_0000u64 * 0x8000_0000u64) by (nonlinear_arith)
                requires
                    mid <= 0x8000_0000u64,
            ;
        }
        if mid * mid <= n {
            lo = mid;
        } else {
            hi = mid - 1;
        }
    }
    proof {
        lemma_sqrt_floor_unique(n as nat, lo as nat);
    }
    lo
}

} // verus!
