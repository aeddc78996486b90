//! Plane geometry: a fixed-point 2D vector and an axis-aligned rectangle
//! with the inclusive overlap test the collision code uses.
use vstd::prelude::*;

verus! {

use crate::num::{div_trunc, isqrt, isqrt_spec, lemma_isqrt_exists};

/// Largest coordinate magnitude the vector operations accept. Far beyond the
/// window; only keeps squares and scaled products inside `i64`.
pub const COORD_LIMIT: i64 = 3000000000;

/// A 2D vector in fixed-point coordinates (thousandths of a pixel).
#[derive(Clone, Copy, Debug, PartialEq, Eq, Structural)]
pub struct Vec2D {
    pub x: i64,
    pub y: i64,
}

/// Squared Euclidean length.
pub open spec fn len_sq(v: Vec2D) -> int {
    v.x * v.x + v.y * v.y
}

/// Euclidean length, rounded down to an integer number of units.
pub open spec fn len_spec(v: Vec2D) -> int {
    isqrt_spec(len_sq(v))
}

/// `v` scaled to length `UNIT` (one pixel), each component rounded toward
/// zero; the zero vector is returned unchanged.
pub open spec fn normalize_spec(v: Vec2D) -> Vec2D {
    let l = len_spec(v);
    if l == 0 {
        v
    } else {
        Vec2D { x: div_trunc(v.x * 1000, l) as i64, y: div_trunc(v.y * 1000, l) as i64 }
    }
}

impl Vec2D {
    pub fn new(x: i64, y: i64) -> (v: Vec2D)
        ensures
            v.x == x,
            v.y == y,
    {
        Vec2D { x, y }
    }

    pub fn zero() -> (v: Vec2D)
        ensures
            v.x == 0,
            v.y == 0,
    {
        Vec2D { x: 0, y: 0 }
    }

    /// Euclidean length, rounded down; zero exactly for the zero vector.
    pub fn length(&self) -> (r: i64)
        requires
            -COORD_LIMIT <= self.x <= COORD_LIMIT,
            -COORD_LIMIT <= self.y <= COORD_LIMIT,
        ensures
            r == len_spec(*self),
            r >= 0,
            r == 0 <==> (self.x == 0 && self.y == 0),
    {
        assert(self.x * self.x <= 3000000000 * 3000000000
            && self.x * self.x >= 0
            && (self.x != 0 ==> self.x * self.x >= 1)
            && (self.x == 0 ==> self.x * self.x == 0)) by (nonlinear_arith)
            requires -3000000000 <= self.x <= 3000000000;
        assert(self.y * self.y <= 3000000000 * 3000000000
            && self.y * self.y >= 0
            && (self.y != 0 ==> self.y * self.y >= 1)
            && (self.y == 0 ==> self.y * self.y == 0)) by (nonlinear_arith)
            requires -3000000000 <= self.y <= 3000000000;
        let xx = (self.x * self.x) as u64;
        let yy = (self.y * self.y) as u64;
        let r = isqrt(xx + yy);
        assert(r * r <= len_sq(*self) < (r + 1) * (r + 1));
        if self.x == 0 && self.y == 0 {
            assert(r == 0) by {
                if r >= 1 {
                    assert(r * r >= 1) by (nonlinear_arith)
                        requires r >= 1;
                }
            }
        } else {
            assert(len_sq(*self) >= 1);
            assert(r >= 1) by {
                if r == 0 {
                    assert((r + 1) * (r + 1) == 1) by (nonlinear_arith)
                        requires r == 0;
                }
            }
        }
        r as i64
    }

    /// Returns this vector scaled to unit length (one pixel, `UNIT`
    /// coordinate units); the zero vector comes back unchanged.
    pub fn normalize(&self) -> (v: Vec2D)
        requires
            -COORD_LIMIT <= self.x <= COORD_LIMIT,
            -COORD_LIMIT <= self.y <= COORD_LIMIT,
        ensures
            v == normalize_spec(*self),
    {
        let l = self.length();
        if l == 0 {
            *self
        } else {
            let x = scale_div(self.x, l);
            let y = scale_div(self.y, l);
            Vec2D { x, y }
        }
    }
}

/// `a * 1000 / l`, rounded toward zero.
fn scale_div(a: i64, l: i64) -> (r: i64)
    requires
        -1000000000000 <= a <= 1000000000000,
        0 < l,
    ensures
        r == div_trunc(a * 1000, l as int),
{
    if a >= 0 {
        let p = (a as u64) * 1000;
        let q = p / (l as u64);
        proof {
            vstd::arithmetic::div_mod::lemma_div_nonincreasing(p as int, l as int);
        }
        q as i64
    } else {
        let p = ((-a) as u64) * 1000;
        let q = p / (l as u64);
        proof {
            vstd::arithmetic::div_mod::lemma_div_nonincreasing(p as int, l as int);
            assert((-a) * 1000 == -(a * 1000)) by (nonlinear_arith);
        }
        -(q as i64)
    }
}

/// Normalizing scales a vector to unit length: the zero vector comes back
/// unchanged, and any vector of at least one pixel normalizes to one whose
/// length is one pixel to within four thousandths either way (integer
/// rounding loses up to that much; vectors shorter than a pixel normalize
/// coarsely and are excluded).
pub proof fn lemma_normalize_unit(v: Vec2D)
    requires
        -COORD_LIMIT <= v.x <= COORD_LIMIT,
        -COORD_LIMIT <= v.y <= COORD_LIMIT,
    ensures
        v.x == 0 && v.y == 0 ==> normalize_spec(v) == v,
        len_spec(v) >= 1000 ==> 997 <= len_spec(normalize_spec(v)) <= 1001,
{
    assert(v.x * v.x >= 0 && v.y * v.y >= 0 && (v.x == 0 ==> v.x * v.x == 0) && (v.y == 0
        ==> v.y * v.y == 0)) by (nonlinear_arith);
    lemma_isqrt_exists(len_sq(v));
    let l = len_spec(v);
    assert(crate::num::is_isqrt(len_sq(v), l));
    if v.x == 0 && v.y == 0 {
        assert(l == 0) by {
            if l >= 1 {
                assert(l * l >= 1) by (nonlinear_arith)
                    requires l >= 1;
            }
        }
    }
    if l >= 1000 {
        let xm = if v.x >= 0 { v.x as int } else { -v.x as int };
        let ym = if v.y >= 0 { v.y as int } else { -v.y as int };
        let a = (xm * 1000) / l;
        let b = (ym * 1000) / l;
        assert(xm * 1000 >= 0 && ym * 1000 >= 0) by (nonlinear_arith)
            requires xm >= 0 && ym >= 0;
        // bracket each quotient
        vstd::arithmetic::div_mod::lemma_fundamental_div_mod(xm * 1000, l);
        vstd::arithmetic::div_mod::lemma_remainder_upper(xm * 1000, l);
        vstd::arithmetic::div_mod::lemma_remainder_lower(xm * 1000, l);
        vstd::arithmetic::div_mod::lemma_div_pos_is_pos(xm * 1000, l);
        vstd::arithmetic::div_mod::lemma_fundamental_div_mod(ym * 1000, l);
        vstd::arithmetic::div_mod::lemma_remainder_upper(ym * 1000, l);
        vstd::arithmetic::div_mod::lemma_remainder_lower(ym * 1000, l);
        vstd::arithmetic::div_mod::lemma_div_pos_is_pos(ym * 1000, l);
        assert(a * l <= xm * 1000 < (a + 1) * l) by (nonlinear_arith)
            requires
                xm * 1000 == l * a + (xm * 1000) % l && 0 <= (xm * 1000) % l < l;
        assert(b * l <= ym * 1000 < (b + 1) * l) by (nonlinear_arith)
            requires
                ym * 1000 == l * b + (ym * 1000) % l && 0 <= (ym * 1000) % l < l;
        let s = a * a + b * b;
        // upper bound on the squared result length
        assert((a * l) * (a * l) <= (xm * 1000) * (xm * 1000)) by (nonlinear_arith)
            requires 0 <= a && 0 < l && 0 <= xm && a * l <= xm * 1000;
        assert((b * l) * (b * l) <= (ym * 1000) * (ym * 1000)) by (nonlinear_arith)
            requires 0 <= b && 0 < l && 0 <= ym && b * l <= ym * 1000;
        assert((a * l) * (a * l) == (a * a) * (l * l) && (b * l) * (b * l) == (b * b) * (l * l)
            && (xm * 1000) * (xm * 1000) == (xm * xm) * 1000000 && (ym * 1000) * (ym * 1000) == (
        ym * ym) * 1000000) by (nonlinear_arith);
        assert(s * (l * l) <= (xm * xm + ym * ym) * 1000000) by (nonlinear_arith)
            requires
                s == a * a + b * b && (a * a) * (l * l) <= (xm * xm) * 1000000 && (b * b) * (l * l)
                    <= (ym * ym) * 1000000;
        assert(xm * xm == v.x * v.x && ym * ym == v.y * v.y) by (nonlinear_arith)
            requires
                (xm == v.x || xm == -v.x) && (ym == v.y || ym == -v.y);
        assert(len_sq(v) <= (l + 1) * (l + 1) - 1);
        assert(s <= 1002001) by {
            if s >= 1002002 {
                assert(false) by (nonlinear_arith)
                    requires
                        s >= 1002002 && l >= 1000 && s * (l * l) <= ((l + 1) * (l + 1) - 1)
                            * 1000000;
            }
        }
        assert(a <= 1001 && b <= 1001) by {
            if a >= 1002 {
                assert(a * a >= 1002 * 1002) by (nonlinear_arith)
                    requires a >= 1002;
                assert(b * b >= 0) by (nonlinear_arith);
            }
            if b >= 1002 {
                assert(b * b >= 1002 * 1002) by (nonlinear_arith)
                    requires b >= 1002;
                assert(a * a >= 0) by (nonlinear_arith);
            }
        }
        // lower bound on the squared result length
        assert((xm * xm + ym * ym) * 1000000 < ((a + 1) * (a + 1) + (b + 1) * (b + 1)) * (l * l))
            by (nonlinear_arith)
            requires
                0 <= xm * 1000 < (a + 1) * l && 0 <= ym * 1000 < (b + 1) * l && 0 <= a && 0 <= b
                    && 0 < l;
        assert(l * l <= xm * xm + ym * ym);
        assert(1000000 < (a + 1) * (a + 1) + (b + 1) * (b + 1)) by (nonlinear_arith)
            requires
                (l * l) * 1000000 <= (xm * xm + ym * ym) * 1000000 < ((a + 1) * (a + 1) + (b + 1)
                    * (b + 1)) * (l * l) && l > 0;
        assert((a + 1) * (a + 1) + (b + 1) * (b + 1) == s + 2 * a + 2 * b + 2) by (nonlinear_arith)
            requires s == a * a + b * b;
        assert(s >= 995995);
        // the normalized vector's squared length is exactly s
        let w = normalize_spec(v);
        assert(w.x as int == div_trunc(v.x * 1000, l) && w.y as int == div_trunc(v.y * 1000, l))
            by {
            assert(-3000000000000 <= div_trunc(v.x * 1000, l) <= 3000000000000 && -3000000000000
                <= div_trunc(v.y * 1000, l) <= 3000000000000) by {
                vstd::arithmetic::div_mod::lemma_div_nonincreasing(xm * 1000, l);
                assert(xm * 1000 <= 3000000000 * 1000) by (nonlinear_arith)
                    requires xm <= 3000000000;
                vstd::arithmetic::div_mod::lemma_div_nonincreasing(ym * 1000, l);
                assert(ym * 1000 <= 3000000000 * 1000) by (nonlinear_arith)
                    requires ym <= 3000000000;
                assert((-v.x) * 1000 == -(v.x * 1000) && (-v.y) * 1000 == -(v.y * 1000))
                    by (nonlinear_arith);
            }
        }
        assert(len_sq(w) == s) by (nonlinear_arith)
            requires
                (w.x as int == a || w.x as int == -a) && (w.y as int == b || w.y as int == -b)
                    && len_sq(w) == (w.x as int) * (w.x as int) + (w.y as int) * (w.y as int) && s
                    == a * a + b * b;
        crate::num::lemma_isqrt_at_least(s, 997);
        lemma_isqrt_exists(s);
        let q = isqrt_spec(s);
        assert(crate::num::is_isqrt(s, q));
        assert(q <= 1001) by {
            if q >= 1002 {
                assert(q * q >= 1002 * 1002) by (nonlinear_arith)
                    requires q >= 1002;
            }
        }
        assert(997 * 997 <= 995995);
    }
}

/// An axis-aligned rectangle: corner, width and height, in fixed-point
/// coordinates.
#[derive(Clone, Copy, Debug, PartialEq, Eq, Structural)]
pub struct Rect {
    pub x: i64,
    pub y: i64,
    pub w: i64,
    pub h: i64,
}

/// Inclusive overlap: touching edges count as overlapping.
pub open spec fn overlaps_spec(a: Rect, b: Rect) -> bool {
    &&& a.x <= b.x + b.w
    &&& a.x + a.w >= b.x
    &&& a.y <= b.y + b.h
    &&& a.y + a.h >= b.y
}

impl Rect {
    pub fn new(x: i64, y: i64, w: i64, h: i64) -> (r: Rect)
        ensures
            r.x == x,
            r.y == y,
            r.w == w,
            r.h == h,
    {
        Rect { x, y, w, h }
    }

    /// Inclusive axis-aligned overlap test.
    pub fn overlaps(&self, other: &Rect) -> (r: bool)
        requires
            -COORD_LIMIT <= self.x <= COORD_LIMIT,
            -COORD_LIMIT <= self.y <= COORD_LIMIT,
            0 <= self.w <= COORD_LIMIT,
            0 <= self.h <= COORD_LIMIT,
            -COORD_LIMIT <= other.x <= COORD_LIMIT,
            -COORD_LIMIT <= other.y <= COORD_LIMIT,
            0 <= other.w <= COORD_LIMIT,
            0 <= other.h <= COORD_LIMIT,
        ensures
            r == overlaps_spec(*self, *other),
    {
        self.x <= other.x + other.w && self.x + self.w >= other.x && self.y <= other.y + other.h
            && self.y + self.h >= other.y
    }
}

} // verus!
