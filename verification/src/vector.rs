//! Two-dimensional vectors of fixed-point scalars.

use vstd::prelude::*;
use crate::root::{
    ceil_sqrt, ceil_sqrt_u128, is_ceil_sqrt, lemma_ceil_sqrt_exists, lemma_ceil_sqrt_of_square,
};
use crate::scalar::{
    fx_add, fx_div, fx_mul, fx_mul_div, in_range, lemma_trunc_div_bound, lemma_trunc_div_exact,
    magnitude, sat, trunc_div, Scalar, LIMIT, SCALE,
};

verus! {

/// The mathematical content of a vector: the raw counts of its components.
pub struct Vec2Model {
    pub x: int,
    pub y: int,
}

impl Vec2Model {
    /// Whether both components are representable.
    pub open spec fn wf(self) -> bool {
        in_range(self.x) && in_range(self.y)
    }

    /// The zero vector.
    pub open spec fn zero() -> Vec2Model {
        Vec2Model { x: 0, y: 0 }
    }

    /// Component-wise saturating sum.
    pub open spec fn add(self, rhs: Vec2Model) -> Vec2Model {
        Vec2Model { x: fx_add(self.x, rhs.x), y: fx_add(self.y, rhs.y) }
    }

    /// Exact negation.
    pub open spec fn neg(self) -> Vec2Model {
        Vec2Model { x: -self.x, y: -self.y }
    }

    /// Each component multiplied by the scalar `k`.
    pub open spec fn scale(self, k: int) -> Vec2Model {
        Vec2Model { x: fx_mul(self.x, k), y: fx_mul(self.y, k) }
    }

    /// Each component divided by the scalar `k`. Meaningful for `k != 0`.
    pub open spec fn div(self, k: int) -> Vec2Model {
        Vec2Model { x: fx_div(self.x, k), y: fx_div(self.y, k) }
    }

    /// The vector with its components exchanged.
    pub open spec fn transposed(self) -> Vec2Model {
        Vec2Model { x: self.y, y: self.x }
    }

    /// Exact sum of the squared raw components.
    pub open spec fn sum_squares(self) -> int {
        self.x * self.x + self.y * self.y
    }

    /// Raw count of the squared length, rounded down and saturated.
    pub open spec fn length_squared(self) -> int {
        sat(self.sum_squares() / SCALE as int)
    }

    /// Raw count of the length, rounded up.
    pub open spec fn norm(self) -> int {
        ceil_sqrt(self.sum_squares())
    }

    /// The vector divided by its length, or zero for the zero vector.
    pub open spec fn normalize_or_zero(self) -> Vec2Model {
        if self.sum_squares() == 0 {
            Vec2Model::zero()
        } else {
            Vec2Model {
                x: fx_mul_div(self.x, SCALE as int, self.norm()),
                y: fx_mul_div(self.y, SCALE as int, self.norm()),
            }
        }
    }

    /// The vector itself if it is no longer than `max`, else rescaled to
    /// length `max`.
    pub open spec fn clamp_length_max(self, max: int) -> Vec2Model {
        if self.sum_squares() > max * max {
            Vec2Model {
                x: fx_mul_div(self.x, max, self.norm()),
                y: fx_mul_div(self.y, max, self.norm()),
            }
        } else {
            self
        }
    }
}

/// A vector with fixed-point components.
#[derive(Clone, Copy, Debug)]
pub struct Vec2 {
    pub x: Scalar,
    pub y: Scalar,
}

impl View for Vec2 {
    type V = Vec2Model;

    open spec fn view(&self) -> Vec2Model {
        Vec2Model { x: self.x@, y: self.y@ }
    }
}

impl Vec2 {
    /// The vector with the given components.
    pub fn new(x: Scalar, y: Scalar) -> (v: Vec2)
        ensures
            v@ == (Vec2Model { x: x@, y: y@ }),
    {
        Vec2 { x, y }
    }

    /// The raw counts of the two components, which are always
    /// representable.
    pub fn raw(&self) -> (r: (i64, i64))
        ensures
            r.0 as int == self@.x,
            r.1 as int == self@.y,
            self@.wf(),
    {
        (self.x.raw(), self.y.raw())
    }

    /// The zero vector.
    pub fn zero() -> (v: Vec2)
        ensures
            v@ == Vec2Model::zero(),
    {
        Vec2 { x: Scalar::zero(), y: Scalar::zero() }
    }

    /// Component-wise saturating sum.
    pub fn add(self, rhs: Vec2) -> (v: Vec2)
        ensures
            v@ == self@.add(rhs@),
    {
        Vec2 { x: self.x.add(rhs.x), y: self.y.add(rhs.y) }
    }

    /// Exact negation.
    pub fn neg(self) -> (v: Vec2)
        ensures
            v@ == self@.neg(),
    {
        Vec2 { x: self.x.neg(), y: self.y.neg() }
    }

    /// Multiplies each component by `k`.
    pub fn scale(self, k: Scalar) -> (v: Vec2)
        ensures
            v@ == self@.scale(k@),
    {
        Vec2 { x: self.x.mul(k), y: self.y.mul(k) }
    }

    /// Divides each component by `k`.
    pub fn div(self, k: Scalar) -> (v: Vec2)
        requires
            k@ != 0,
        ensures
            v@ == self@.div(k@),
    {
        Vec2 { x: self.x.div(k), y: self.y.div(k) }
    }

    /// Whether both components are zero.
    pub fn is_zero(&self) -> (b: bool)
        ensures
            b == (self@ == Vec2Model::zero()),
    {
        self.x.is_zero() && self.y.is_zero()
    }

    /// Exact sum of the squared raw components.
    fn sum_squares(&self) -> (s: u128)
        ensures
            s as int == self@.sum_squares(),
            s < 0x8000_0000_0000_0000_0000_0000_0000_0000,
    {
        let x: i128 = self.x.raw() as i128;
        let y: i128 = self.y.raw() as i128;
        assert(0 <= x * x <= 0x3fff_ffff_ffff_ffff_0000_0000_0000_0001) by (nonlinear_arith)
            requires
                -0x7fff_ffff_ffff_ffff <= x <= 0x7fff_ffff_ffff_ffff,
        ;
        assert(0 <= y * y <= 0x3fff_ffff_ffff_ffff_0000_0000_0000_0001) by (nonlinear_arith)
            requires
                -0x7fff_ffff_ffff_ffff <= y <= 0x7fff_ffff_ffff_ffff,
        ;
        (x * x + y * y) as u128
    }

    /// Squared length, rounded down and saturated.
    pub fn length_squared(&self) -> (s: Scalar)
        ensures
            s@ == self@.length_squared(),
    {
        let sum: u128 = self.sum_squares();
        Scalar::saturating_from((sum / 1_000_000) as i128)
    }

    /// The vector divided by its length; the zero vector stays zero.
    pub fn normalize_or_zero(&self) -> (v: Vec2)
        ensures
            v@ == self@.normalize_or_zero(),
    {
        let sum: u128 = self.sum_squares();
        if sum == 0 {
            return Vec2::zero();
        }
        let norm: u128 = ceil_sqrt_u128(sum);
        Vec2 {
            x: self.x.mul_div(Scalar::one(), norm as i128),
            y: self.y.mul_div(Scalar::one(), norm as i128),
        }
    }

    /// Caps the vector's length at `max`, keeping its direction. The result
    /// is never longer than a cap that is not negative.
    pub fn clamp_length_max(&self, max: Scalar) -> (v: Vec2)
        ensures
            v@ == self@.clamp_length_max(max@),
            max@ >= 0 ==> v@.sum_squares() <= max@ * max@,
    {
        let sum: u128 = self.sum_squares();
        let m: i128 = max.raw() as i128;
        proof {
            if max@ >= 0 {
                lemma_clamp_length_max_bounded(self@, max@);
            }
        }
        assert(0 <= m * m <= 0x3fff_ffff_ffff_ffff_0000_0000_0000_0001) by (nonlinear_arith)
            requires
                -0x7fff_ffff_ffff_ffff <= m <= 0x7fff_ffff_ffff_ffff,
        ;
        if sum > (m * m) as u128 {
            let norm: u128 = ceil_sqrt_u128(sum);
            Vec2 {
                x: self.x.mul_div(max, norm as i128),
                y: self.y.mul_div(max, norm as i128),
            }
        } else {
            *self
        }
    }
}

/// Squares keep the order of non-negative numbers.
proof fn lemma_square_le(p: int, q: int)
    requires
        0 <= p <= q,
    ensures
        p * p <= q * q,
{
    assert(p * p <= q * q) by (nonlinear_arith)
        requires
            0 <= p <= q,
    ;
}

/// A vector multiplied by `k` and divided by a number that is at least its
/// length is no longer than `k`, whatever the rounding toward zero drops.
pub proof fn lemma_rescaled_length(v: Vec2Model, k: int, n: int)
    requires
        0 <= k,
        0 < n,
        v.sum_squares() <= n * n,
    ensures
        (Vec2Model { x: trunc_div(v.x * k, n), y: trunc_div(v.y * k, n) }).sum_squares() <= k * k,
        magnitude(trunc_div(v.x * k, n)) <= k,
        magnitude(trunc_div(v.y * k, n)) <= k,
{
    let a = magnitude(trunc_div(v.x * k, n));
    let b = magnitude(trunc_div(v.y * k, n));
    let ax = magnitude(v.x);
    let ay = magnitude(v.y);
    lemma_trunc_div_bound(v.x * k, n);
    lemma_trunc_div_bound(v.y * k, n);
    assert(magnitude(v.x * k) == ax * k && magnitude(v.y * k) == ay * k) by (nonlinear_arith)
        requires
            0 <= k,
            ax == magnitude(v.x),
            ay == magnitude(v.y),
    ;
    lemma_square_le(a * n, ax * k);
    lemma_square_le(b * n, ay * k);
    let nn = n * n;
    let kk = k * k;
    assert(0 < nn && 0 <= kk) by (nonlinear_arith)
        requires
            nn == n * n,
            kk == k * k,
            0 < n,
    ;
    assert((a * n) * (a * n) == (a * a) * nn && (b * n) * (b * n) == (b * b) * nn) by (nonlinear_arith)
        requires
            nn == n * n,
    ;
    assert((ax * k) * (ax * k) == (v.x * v.x) * kk && (ay * k) * (ay * k) == (v.y * v.y) * kk)
        by (nonlinear_arith)
        requires
            kk == k * k,
            ax == magnitude(v.x),
            ay == magnitude(v.y),
    ;
    let t = a * a + b * b;
    let u = v.x * v.x + v.y * v.y;
    assert(t * nn <= u * kk) by (nonlinear_arith)
        requires
            (a * a) * nn <= (v.x * v.x) * kk,
            (b * b) * nn <= (v.y * v.y) * kk,
            t == a * a + b * b,
            u == v.x * v.x + v.y * v.y,
    ;
    assert(u * kk <= nn * kk) by (nonlinear_arith)
        requires
            u <= nn,
            0 <= kk,
    ;
    assert(t <= kk) by (nonlinear_arith)
        requires
            t * nn <= nn * kk,
            0 < nn,
    ;
    assert(trunc_div(v.x * k, n) * trunc_div(v.x * k, n) == a * a) by (nonlinear_arith)
        requires
            a == magnitude(trunc_div(v.x * k, n)),
    ;
    assert(trunc_div(v.y * k, n) * trunc_div(v.y * k, n) == b * b) by (nonlinear_arith)
        requires
            b == magnitude(trunc_div(v.y * k, n)),
    ;
    assert(a <= k && b <= k) by (nonlinear_arith)
        requires
            a * a + b * b <= k * k,
            0 <= a,
            0 <= b,
            0 <= k,
    ;
}

/// The length of a vector, rounded up, is positive unless the vector is
/// zero, and its square is at least the exact squared length.
pub proof fn lemma_norm_covers(v: Vec2Model)
    ensures
        is_ceil_sqrt(v.sum_squares(), v.norm()),
        v.sum_squares() > 0 ==> v.norm() > 0,
        v.norm() * v.norm() >= v.sum_squares(),
{
    let n = v.sum_squares();
    assert(n >= 0) by (nonlinear_arith)
        requires
            n == v.x * v.x + v.y * v.y,
    ;
    lemma_ceil_sqrt_exists(n);
}

/// The speed cap holds: a vector capped at a length `max` that is not
/// negative has a squared length of at most `max` squared.
pub proof fn lemma_clamp_length_max_bounded(v: Vec2Model, max: int)
    requires
        0 <= max <= LIMIT as int,
    ensures
        v.clamp_length_max(max).sum_squares() <= max * max,
{
    if v.sum_squares() > max * max {
        assert(max * max >= 0) by (nonlinear_arith);
        lemma_norm_covers(v);
        lemma_rescaled_length(v, max, v.norm());
    }
}

/// A normalized vector is no longer than one.
pub proof fn lemma_normalize_or_zero_bounded(v: Vec2Model)
    ensures
        v.normalize_or_zero().sum_squares() <= SCALE as int * SCALE as int,
        magnitude(v.normalize_or_zero().x) <= SCALE as int,
        magnitude(v.normalize_or_zero().y) <= SCALE as int,
{
    if v.sum_squares() != 0 {
        lemma_norm_covers(v);
        assert(v.sum_squares() >= 0) by (nonlinear_arith)
            requires
                v.sum_squares() == v.x * v.x + v.y * v.y,
        ;
        assert(v.x * SCALE as int == v.x * (SCALE as int));
        lemma_rescaled_length(v, SCALE as int, v.norm());
    }
}

/// A vector along the horizontal axis is normalized to one unit in its
/// direction.
pub proof fn lemma_normalize_horizontal(s: int)
    requires
        s != 0,
    ensures
        (Vec2Model { x: s, y: 0 }).normalize_or_zero() == (Vec2Model {
            x: if s > 0 {
                SCALE as int
            } else {
                -(SCALE as int)
            },
            y: 0,
        }),
{
    let v = Vec2Model { x: s, y: 0 };
    let m = magnitude(s);
    assert(v.sum_squares() == m * m && m * m > 0) by (nonlinear_arith)
        requires
            v.sum_squares() == s * s + 0 * 0,
            m == magnitude(s),
            s != 0,
    ;
    lemma_ceil_sqrt_of_square(m);
    assert(v.norm() == m);
    if s > 0 {
        assert(s * SCALE as int == SCALE as int * m) by (nonlinear_arith)
            requires
                m == s,
        ;
        lemma_trunc_div_exact(SCALE as int, m);
    } else {
        assert(s * SCALE as int == (-(SCALE as int)) * m) by (nonlinear_arith)
            requires
                m == -s,
        ;
        lemma_trunc_div_exact(-(SCALE as int), m);
    }
    assert(0 * SCALE as int == 0) by (nonlinear_arith);
    crate::scalar::lemma_trunc_div_zero(m);
}

} // verus!
