//! Integer arithmetic helpers: floor square root and fixed-point scaling.
//!
//! Chase movement and aiming normalize a direction vector; with fixed-point
//! coordinates that takes a floor square root and a scaled multiply-divide
//! whose rounding is pinned down exactly.

use vstd::prelude::*;
use vstd::arithmetic::div_mod::{lemma_div_is_ordered, lemma_div_denominator, lemma_div_multiples_vanish};
use vstd::arithmetic::mul::lemma_mul_inequality;

verus! {

/// The floor of the square root of `n`, defined constructively.
pub open spec fn sqrt_floor(n: nat) -> nat
    decreases n,
{
    if n == 0 {
        0
    } else {
        let r = sqrt_floor((n - 1) as nat);
        if (r + 1) * (r + 1) <= n {
            r + 1
        } else {
            r
        }
    }
}

/// `sqrt_floor(n)` is the unique `r` with `r * r <= n < (r + 1) * (r + 1)`.
pub proof fn lemma_sqrt_floor_bounds(n: nat)
    ensures
        sqrt_floor(n) * sqrt_floor(n) <= n,
        n < (sqrt_floor(n) + 1) * (sqrt_floor(n) + 1),
    decreases n,
{
    if n == 0 {
        assert(sqrt_floor(0) == 0);
        assert((sqrt_floor(n) + 1) * (sqrt_floor(n) + 1) == 1) by (nonlinear_arith)
            requires sqrt_floor(n) == 0;
    } else {
        let p = sqrt_floor((n - 1) as nat);
        lemma_sqrt_floor_bounds((n - 1) as nat);
        assert(p * p <= n - 1 && n - 1 < (p + 1) * (p + 1));
        if (p + 1) * (p + 1) <= n {
            assert(sqrt_floor(n) == p + 1);
            assert(n < (p + 2) * (p + 2)) by (nonlinear_arith)
                requires 0 <= p, n - 1 < (p + 1) * (p + 1);
            assert(sqrt_floor(n) * sqrt_floor(n) <= n);
            assert(n < (sqrt_floor(n) + 1) * (sqrt_floor(n) + 1));
        } else {
            assert(sqrt_floor(n) == p);
            assert(sqrt_floor(n) * sqrt_floor(n) <= n);
            assert(n < (sqrt_floor(n) + 1) * (sqrt_floor(n) + 1));
        }
    }
}

/// Any `r` satisfying the floor-square-root bounds equals `sqrt_floor(n)`.
pub proof fn lemma_sqrt_floor_unique(n: nat, r: nat)
    requires
        r * r <= n,
        n < (r + 1) * (r + 1),
    ensures
        r == sqrt_floor(n),
{
    let s = sqrt_floor(n);
    lemma_sqrt_floor_bounds(n);
    if r < s {
        assert(s * s <= n < (r + 1) * (r + 1) && r + 1 <= s);
        assert((r + 1) * (r + 1) <= s * s) by (nonlinear_arith)
            requires 0 <= r, r + 1 <= s;
    } else if s < r {
        assert(r * r <= n < (s + 1) * (s + 1) && s + 1 <= r);
        assert((s + 1) * (s + 1) <= r * r) by (nonlinear_arith)
            requires 0 <= s, s + 1 <= r;
    }
}

/// A coordinate is no farther from zero than the whole vector is long:
/// `|u| <= sqrt_floor(u * u + v * v)`.
pub proof fn lemma_component_le_sqrt(u: int, v: int)
    ensures
        (if u >= 0 { u } else { -u }) <= sqrt_floor((u * u + v * v) as nat),
{
    let a = if u >= 0 { u } else { -u };
    assert(a * a == u * u) by (nonlinear_arith)
        requires a == (if u >= 0 { u } else { -u });
    assert(0 <= u * u && 0 <= v * v) by (nonlinear_arith);
    let n = (u * u + v * v) as nat;
    let r = sqrt_floor(n);
    lemma_sqrt_floor_bounds(n);
    if r < a {
        assert((r + 1) * (r + 1) <= a * a) by (nonlinear_arith)
            requires 0 <= r, r + 1 <= a;
    }
}

/// Floor square root by binary search.
pub fn isqrt(n: u128) -> (r: u128)
    ensures
        r == sqrt_floor(n as nat),
        r * r <= n,
{
    let mut lo: u128 = 0;
    let mut hi: u128 = 0x1_0000_0000_0000_0000;
    proof {
        assert((n as int) < hi * hi) by (nonlinear_arith)
            requires n <= u128::MAX, hi == 0x1_0000_0000_0000_0000int;
    }
    while hi - lo > 1
        invariant
            0 <= lo < hi <= 0x1_0000_0000_0000_0000,
            lo * lo <= n,
            (n as int) < hi * hi,
        decreases hi - lo,
    {
        let mid = lo + (hi - lo) / 2;
        proof {
            assert(mid * mid <= (0x1_0000_0000_0000_0000int - 1) * (0x1_0000_0000_0000_0000int - 1))
                by (nonlinear_arith)
                requires 0 <= mid <= 0x1_0000_0000_0000_0000int - 1;
        }
        if mid * mid <= n {
            lo = mid;
        } else {
            hi = mid;
        }
    }
    proof {
        lemma_sqrt_floor_unique(n as nat, lo as nat);
    }
    lo
}

/// `a` scaled by `num / den`, rounding the magnitude down and keeping the
/// sign: the fixed-point analogue of multiplying a component by a
/// nonnegative ratio.
pub open spec fn scale_spec(a: int, num: int, den: int) -> int {
    if a >= 0 {
        (a * num) / den
    } else {
        -(((-a) * num) / den)
    }
}

/// Magnitude bound for `scale_spec`: scaling cannot grow past the scaled cap.
pub proof fn lemma_scale_abs_le(a: int, num: int, den: int, cap: int)
    requires
        den >= 1,
        num >= 0,
        0 <= cap,
        -cap <= a <= cap,
    ensures
        -((cap * num) / den) <= scale_spec(a, num, den) <= (cap * num) / den,
{
    let m = if a >= 0 { a } else { -a };
    lemma_mul_inequality(m, cap, num);
    assert(0 <= m * num) by (nonlinear_arith)
        requires 0 <= m, 0 <= num;
    lemma_div_is_ordered(m * num, cap * num, den);
    assert(0 <= (m * num) / den) by (nonlinear_arith)
        requires 0 <= m * num, den >= 1;
}

/// Tight bound for scaling a component of a vector by `num / (cap * k)`
/// when the component is no longer than `cap`: the result is at most
/// `num / k` in magnitude.
pub proof fn lemma_scale_ratio_bound(a: int, num: int, cap: int, k: int)
    requires
        cap >= 1,
        k >= 1,
        num >= 0,
        -cap <= a <= cap,
    ensures
        -(num / k) <= scale_spec(a, num, cap * k) <= num / k,
{
    let m = if a >= 0 { a } else { -a };
    let den = cap * k;
    assert(den >= 1) by (nonlinear_arith)
        requires cap >= 1, k >= 1, den == cap * k;
    lemma_mul_inequality(m, cap, num);
    assert(0 <= m * num) by (nonlinear_arith)
        requires 0 <= m, 0 <= num;
    lemma_div_is_ordered(m * num, cap * num, den);
    lemma_div_denominator(cap * num, cap, k);
    assert((cap * num) / cap == num) by {
        lemma_div_multiples_vanish(num, cap);
        assert(cap * num == num * cap) by (nonlinear_arith);
    }
    assert((cap * num) / den == num / k);
    assert(0 <= (m * num) / den) by (nonlinear_arith)
        requires 0 <= m * num, den >= 1;
}

/// Compute `scale_spec` on machine integers.
pub fn scale(a: i64, num: u64, den: u64) -> (r: i64)
    requires
        den >= 1,
        num <= 0x1_0000_0000_0000,
        (if a >= 0 { a as int } else { -(a as int) }) * num <= den * i64::MAX,
    ensures
        r == scale_spec(a as int, num as int, den as int),
{
    let neg = a < 0;
    let mag: u128 = if a >= 0 {
        a as u128
    } else {
        (-(a as i128)) as u128
    };
    proof {
        assert(mag * (num as int) <= 0x8000_0000_0000_0000 * 0x1_0000_0000_0000)
            by (nonlinear_arith)
            requires 0 <= mag <= 0x8000_0000_0000_0000, 0 <= num <= 0x1_0000_0000_0000;
    }
    let prod: u128 = mag * (num as u128);
    let q: u128 = prod / (den as u128);
    proof {
        lemma_div_is_ordered(prod as int, den * i64::MAX, den as int);
        lemma_div_multiples_vanish(i64::MAX as int, den as int);
        assert(0 <= (prod as int) / (den as int)) by (nonlinear_arith)
            requires 0 <= prod as int, den as int >= 1;
    }
    if neg {
        -(q as i64)
    } else {
        q as i64
    }
}

} // verus!
