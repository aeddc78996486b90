//! Fixed-point arithmetic kernel: truncating division toward zero, scaling a
//! speed by a time step, an exact integer square root, and a fixed-point sine
//! used by the paddle-reflection angle and by tone synthesis.
use vstd::prelude::*;

verus! {

use vstd::arithmetic::div_mod::{lemma_div_is_ordered, lemma_div_multiples_vanish_fancy,
    lemma_div_nonincreasing};
use vstd::arithmetic::mul::lemma_mul_inequality;
use crate::MAX_STEP_MS;

/// Division that rounds toward zero, the semantics all executable code in
/// this crate uses. Meaningful for `b > 0`.
pub open spec fn div_trunc(a: int, b: int) -> int {
    if a >= 0 {
        a / b
    } else {
        -((-a) / b)
    }
}

/// Displacement of a point moving at speed `v` (units per second) for `dt`
/// milliseconds: `v * dt / 1000`, rounded toward zero.
pub open spec fn displacement(v: int, dt: int) -> int {
    div_trunc(v * dt, 1000)
}

/// Scales speed `v` (units per second) by a time step of `dt` milliseconds.
pub fn scale_speed(v: i64, dt: u64) -> (d: i64)
    requires
        -1000000000 <= v <= 1000000000,
        dt <= MAX_STEP_MS,
    ensures
        d == displacement(v as int, dt as int),
        -1000000000000 <= d <= 1000000000000,
{
    proof {
        let k = if v >= 0 { v as int } else { -v as int };
        lemma_mul_inequality(k, 1000000000, dt as int);
        lemma_mul_inequality(dt as int, 1000000, 1000000000);
        assert(1000000000 * (dt as int) == (dt as int) * 1000000000) by (nonlinear_arith);
        lemma_div_is_ordered(k * dt, (1000000 * 1000000000) as int, 1000);
    }
    if v >= 0 {
        assert((v as u64) * dt <= 1000000000 * 1000000) by (nonlinear_arith)
            requires 0 <= v <= 1000000000 && dt <= 1000000;
        let p = (v as u64) * dt;
        let d = p / 1000;
        assert(d <= p);
        d as i64
    } else {
        assert(((-v) as u64) * dt <= 1000000000 * 1000000) by (nonlinear_arith)
            requires 0 < -v <= 1000000000 && dt <= 1000000;
        let p = ((-v) as u64) * dt;
        let m = p / 1000;
        assert(m <= p);
        proof {
            assert((-v) * dt == -(v * dt)) by (nonlinear_arith);
        }
        -(m as i64)
    }
}

/// The displacement of a bounded speed over `dt` milliseconds is at most
/// `k * dt`, where `k` is the speed expressed in units per millisecond.
pub proof fn lemma_displacement_bound(v: int, dt: int, k: int)
    requires
        0 <= dt,
        0 <= k,
        -k * 1000 <= v <= k * 1000,
    ensures
        -k * dt <= displacement(v, dt) <= k * dt,
{
    assert(k * dt >= 0) by (nonlinear_arith)
        requires k >= 0 && dt >= 0;
    assert((-k) * dt == -(k * dt)) by (nonlinear_arith);
    if v >= 0 {
        lemma_mul_inequality(v, k * 1000, dt);
        assert(k * 1000 * dt == k * dt * 1000) by (nonlinear_arith);
        lemma_div_is_ordered(v * dt, k * dt * 1000, 1000);
        assert(k * dt * 1000 == 1000 * (k * dt)) by (nonlinear_arith);
        vstd::arithmetic::div_mod::lemma_div_multiples_vanish(k * dt, 1000);
        assert(v * dt >= 0) by (nonlinear_arith)
            requires v >= 0 && dt >= 0;
        assert(v * dt / 1000 >= 0) by {
            vstd::arithmetic::div_mod::lemma_div_pos_is_pos(v * dt, 1000);
        }
    } else {
        lemma_mul_inequality(-v, k * 1000, dt);
        assert(k * 1000 * dt == k * dt * 1000) by (nonlinear_arith);
        lemma_div_is_ordered((-v) * dt, k * dt * 1000, 1000);
        assert(k * dt * 1000 == 1000 * (k * dt)) by (nonlinear_arith);
        vstd::arithmetic::div_mod::lemma_div_multiples_vanish(k * dt, 1000);
        assert((-v) * dt >= 0) by (nonlinear_arith)
            requires -v >= 0 && dt >= 0;
        assert((-v) * dt / 1000 >= 0) by {
            vstd::arithmetic::div_mod::lemma_div_pos_is_pos((-v) * dt, 1000);
        }
        assert(v * dt == -((-v) * dt)) by (nonlinear_arith);
    }
}

/// `a * s / 1000`, rounded toward zero: scales a nonnegative magnitude `a`
/// by a signed fraction `s` given in thousandths.
pub fn mul_frac_milli(a: i64, s: i64) -> (r: i64)
    requires
        0 <= a <= 1000000000,
        -1000 <= s <= 1000,
    ensures
        r == div_trunc(a * s, 1000),
        -a <= r <= a,
{
    if s >= 0 {
        assert((a as u64) * (s as u64) <= 1000000000 * 1000) by (nonlinear_arith)
            requires 0 <= a <= 1000000000 && 0 <= s <= 1000;
        let p = (a as u64) * (s as u64);
        let q = p / 1000;
        assert(q <= p);
        assert(q == div_trunc(a * s, 1000));
        assert(q <= a) by {
            assert(a * s <= a * 1000) by (nonlinear_arith)
                requires 0 <= a && s <= 1000;
            lemma_div_is_ordered(a * s, a * 1000, 1000);
            assert(a * 1000 == 1000 * a) by (nonlinear_arith);
            vstd::arithmetic::div_mod::lemma_div_multiples_vanish(a as int, 1000);
        }
        q as i64
    } else {
        assert((a as u64) * ((-s) as u64) <= 1000000000 * 1000) by (nonlinear_arith)
            requires 0 <= a <= 1000000000 && 0 < -s <= 1000;
        let p = (a as u64) * ((-s) as u64);
        let q = p / 1000;
        assert(q <= p);
        assert(q <= a) by {
            assert(a * (-s) <= a * 1000) by (nonlinear_arith)
                requires 0 <= a && -s <= 1000;
            lemma_div_is_ordered(a * (-s), a * 1000, 1000);
            assert(a * 1000 == 1000 * a) by (nonlinear_arith);
            vstd::arithmetic::div_mod::lemma_div_multiples_vanish(a as int, 1000);
        }
        proof {
            assert(a * (-s) == -(a * s)) by (nonlinear_arith);
        }
        -(q as i64)
    }
}

/// `a / b`, rounded toward zero, for a positive divisor.
pub fn div_round_zero(a: i64, b: i64) -> (r: i64)
    requires
        -1000000000000000 <= a <= 1000000000000000,
        0 < b,
    ensures
        r == div_trunc(a as int, b as int),
{
    if a >= 0 {
        let q = (a as u64) / (b as u64);
        proof {
            lemma_div_nonincreasing(a as int, b as int);
        }
        q as i64
    } else {
        let q = ((-a) as u64) / (b as u64);
        proof {
            lemma_div_nonincreasing(-a as int, b as int);
        }
        -(q as i64)
    }
}

/// `r` brackets the square root of `n`.
pub open spec fn is_isqrt(n: int, r: int) -> bool {
    0 <= r && r * r <= n && n < (r + 1) * (r + 1)
}

/// The integer square root: the unique `r >= 0` with
/// `r * r <= n < (r + 1) * (r + 1)`.
pub open spec fn isqrt_spec(n: int) -> int {
    choose|r: int| is_isqrt(n, r)
}

/// An integer square root exists for every `n >= 0`.
pub proof fn lemma_isqrt_exists(n: int)
    requires
        n >= 0,
    ensures
        exists|r: int| is_isqrt(n, r),
    decreases n,
{
    if n == 0 {
        assert(is_isqrt(n, 0));
    } else {
        lemma_isqrt_exists(n - 1);
        let r = choose|r: int| #[trigger] is_isqrt(n - 1, r);
        if n < (r + 1) * (r + 1) {
            assert(is_isqrt(n, r));
        } else {
            assert(n == (r + 1) * (r + 1));
            assert((r + 1) * (r + 1) < (r + 2) * (r + 2)) by (nonlinear_arith)
                requires r >= 0;
            assert(is_isqrt(n, r + 1));
        }
    }
}

/// Any `r` meeting the square-root bracketing equals `isqrt_spec(n)`.
pub proof fn lemma_isqrt_is(n: int, r: int)
    requires
        0 <= r,
        r * r <= n,
        n < (r + 1) * (r + 1),
    ensures
        isqrt_spec(n) == r,
{
    assert(is_isqrt(n, r));
    let q = isqrt_spec(n);
    assert(is_isqrt(n, q));
    if q < r {
        assert((q + 1) * (q + 1) <= r * r) by (nonlinear_arith)
            requires 0 <= q && q + 1 <= r;
    } else if r < q {
        assert((r + 1) * (r + 1) <= q * q) by (nonlinear_arith)
            requires 0 <= r && r + 1 <= q;
    }
}

/// Squaring is monotone on nonnegative values; bracketing a square root.
pub proof fn lemma_isqrt_at_least(n: int, k: int)
    requires
        0 <= k,
        k * k <= n,
    ensures
        isqrt_spec(n) >= k,
{
    lemma_isqrt_exists(n);
    let q = isqrt_spec(n);
    if q < k {
        assert((q + 1) * (q + 1) <= k * k) by (nonlinear_arith)
            requires 0 <= q && q + 1 <= k;
    }
}

/// Integer square root by bisection.
pub fn isqrt(n: u64) -> (r: u64)
    ensures
        r * r <= n < (r + 1) * (r + 1),
        r == isqrt_spec(n as int),
        r < 4294967296,
{
    let mut lo: u64 = 0;
    let mut hi: u64 = 4294967296;
    assert(n < hi * hi) by (nonlinear_arith)
        requires n <= u64::MAX && hi == 4294967296u64;
    while lo + 1 < hi
        invariant
            lo < hi,
            hi <= 4294967296,
            lo * lo <= n,
            n < hi * hi,
        decreases hi - lo,
    {
        let mid = lo + (hi - lo) / 2;
        assert(lo < mid < hi);
        assert(mid * mid <= (4294967296u64 - 1) * (4294967296u64 - 1)) by (nonlinear_arith)
            requires mid <= 4294967296u64 - 1;
        let sq = mid * mid;
        if sq <= n {
            lo = mid;
        } else {
            hi = mid;
        }
    }
    proof {
        lemma_isqrt_is(n as int, lo as int);
    }
    lo
}

/// Fixed-point sine magnitude for `0 <= x <= 1571` milliradians: the odd
/// polynomial `x - x^3/6 + x^5/120` evaluated in thousandths and capped at
/// 1000 (the cap only trims the polynomial's slight overshoot near pi/2).
pub open spec fn sin_mag(x: int) -> int {
    let t = x + x * x * x * x * x / 120000000000000 - x * x * x / 6000000;
    if t > 1000 {
        1000
    } else {
        t
    }
}

/// Fixed-point sine: odd extension of `sin_mag`, in thousandths, for
/// angles in `[-1571, 1571]` milliradians.
pub open spec fn sin_milli_spec(a: int) -> int {
    if a < 0 {
        -sin_mag(-a)
    } else {
        sin_mag(a)
    }
}

proof fn lemma_sin_mag_bounds(x: int)
    requires
        0 <= x <= 1571,
    ensures
        0 <= sin_mag(x) <= 1000,
        x >= 1 ==> sin_mag(x) >= 1,
        x == 0 ==> sin_mag(x) == 0,
{
    if x == 0 {
        assert(0 * 0 * 0 * 0 * 0 / 120000000000000 == 0);
        assert(0 * 0 * 0 / 6000000 == 0);
        assert(sin_mag(0) == 0);
    } else {
        assert(x * x * x < 6000000 * x) by (nonlinear_arith)
            requires 1 <= x <= 1571;
        lemma_div_is_ordered(x * x * x, 6000000 * (x - 1) + 5999999, 6000000);
        lemma_div_multiples_vanish_fancy(x - 1, 5999999, 6000000);
        assert(6000000 * (x - 1) + 5999999 == 6000000 * x - 1) by (nonlinear_arith);
        assert(x * x * x / 6000000 <= x - 1);
        assert(x * x * x * x * x >= 0) by (nonlinear_arith)
            requires x >= 0;
        vstd::arithmetic::div_mod::lemma_div_pos_is_pos(x * x * x * x * x, 120000000000000);
    }
}

/// The fixed-point sine stays within one unit of amplitude, vanishes only
/// at zero, and carries the sign of its argument.
pub proof fn lemma_sin_milli_props(a: int)
    requires
        -1571 <= a <= 1571,
    ensures
        -1000 <= sin_milli_spec(a) <= 1000,
        a == 0 ==> sin_milli_spec(a) == 0,
        a >= 1 ==> sin_milli_spec(a) >= 1,
        a <= -1 ==> sin_milli_spec(a) <= -1,
{
    if a >= 0 {
        lemma_sin_mag_bounds(a);
    } else {
        lemma_sin_mag_bounds(-a);
    }
}

/// Fixed-point sine in thousandths, for angles in `[-1571, 1571]`
/// milliradians (a quarter turn either way).
pub fn sin_milli(a: i64) -> (r: i64)
    requires
        -1571 <= a <= 1571,
    ensures
        r == sin_milli_spec(a as int),
        -1000 <= r <= 1000,
{
    proof {
        lemma_sin_milli_props(a as int);
    }
    let neg = a < 0;
    let x: u64 = if neg {
        (-a) as u64
    } else {
        a as u64
    };
    assert(x * x <= 1571 * 1571 && x * x >= 0) by (nonlinear_arith)
        requires x <= 1571;
    let x2 = x * x;
    assert(x2 * x <= 2468041 * 1571 && x2 * x >= 0) by (nonlinear_arith)
        requires 0 <= x2 <= 2468041 && x <= 1571;
    let x3 = x2 * x;
    assert(x3 * x2 <= 3877292411 * 2468041 && x3 * x2 >= 0) by (nonlinear_arith)
        requires 0 <= x3 <= 3877292411 && 0 <= x2 <= 2468041;
    let x5 = x3 * x2;
    proof {
        assert(x3 == x * x * x && x5 == x * x * x * x * x) by (nonlinear_arith)
            requires x2 == x * x && x3 == x2 * x && x5 == x3 * x2;
        assert(x3 <= 6000000 * x) by (nonlinear_arith)
            requires 0 <= x <= 1571 && x3 == x * x * x;
        lemma_div_is_ordered(x3 as int, 6000000 * x, 6000000);
        vstd::arithmetic::div_mod::lemma_div_multiples_vanish(x as int, 6000000);
        assert(x3 / 6000000 <= x);
    }
    let t = x + x5 / 120000000000000 - x3 / 6000000;
    let m = if t > 1000 {
        1000
    } else {
        t
    };
    assert(m == sin_mag(x as int));
    if neg {
        -(m as i64)
    } else {
        m as i64
    }
}

/// Fixed-point sine over a full turn: `a` in `[0, 6283]` milliradians,
/// reduced by quadrant symmetry to `sin_milli`. Used by tone synthesis.
pub fn sin_circle(a: i64) -> (r: i64)
    requires
        0 <= a <= 6283,
    ensures
        -1000 <= r <= 1000,
        a <= 1571 ==> r == sin_milli_spec(a as int),
        1571 < a <= 3142 ==> r == sin_milli_spec(3142 - a),
        3142 < a <= 4712 ==> r == -sin_milli_spec(a - 3142),
        4712 < a ==> r == -sin_milli_spec(6283 - a),
{
    if a <= 1571 {
        sin_milli(a)
    } else if a <= 3142 {
        sin_milli(3142 - a)
    } else if a <= 4712 {
        let s = sin_milli(a - 3142);
        -s
    } else {
        let s = sin_milli(6283 - a);
        -s
    }
}

} // verus!
