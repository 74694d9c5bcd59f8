//! Fixed-point scalars: a signed count of millionths, with saturating
//! arithmetic that rounds toward zero.
//!
//! The range is symmetric, so negation is always exact, and every operation
//! is total: a result too large to hold saturates at the limit instead of
//! wrapping or becoming undefined.

use vstd::prelude::*;

verus! {

/// Raw units per 1.0.
pub const SCALE: i64 = 1_000_000;

/// Largest raw magnitude a scalar can hold; results beyond it saturate.
pub const LIMIT: i64 = 9_223_372_036_854_775_807;

/// Clamps an exact result into the representable range.
pub open spec fn sat(v: int) -> int {
    if v > LIMIT as int {
        LIMIT as int
    } else if v < -(LIMIT as int) {
        -(LIMIT as int)
    } else {
        v
    }
}

/// Whether a raw count is representable.
pub open spec fn in_range(v: int) -> bool {
    -(LIMIT as int) <= v <= LIMIT as int
}

/// Absolute value of an integer.
pub open spec fn magnitude(v: int) -> int {
    if v < 0 {
        -v
    } else {
        v
    }
}

/// Quotient rounded toward zero. Meaningful for `d != 0`.
pub open spec fn trunc_div(n: int, d: int) -> int {
    let q = magnitude(n) / magnitude(d);
    if (n < 0) != (d < 0) {
        -q
    } else {
        q
    }
}

/// Raw result of a saturating sum.
pub open spec fn fx_add(a: int, b: int) -> int {
    sat(a + b)
}

/// Raw result of a saturating difference.
pub open spec fn fx_sub(a: int, b: int) -> int {
    sat(a - b)
}

/// Raw result of a product: exact product of the raw counts, brought back
/// to millionths by a division that rounds toward zero, then saturated.
pub open spec fn fx_mul(a: int, b: int) -> int {
    sat(trunc_div(a * b, SCALE as int))
}

/// Raw result of a quotient, rounded toward zero, then saturated.
/// Meaningful for `b != 0`.
pub open spec fn fx_div(a: int, b: int) -> int {
    sat(trunc_div(a * SCALE as int, b))
}

/// Raw result of halving, rounded toward zero.
pub open spec fn fx_half(a: int) -> int {
    trunc_div(a, 2)
}

/// Raw result of multiplying by `b` and dividing by `d` in one step: the
/// product is exact, and only the quotient is rounded (toward zero) and
/// saturated. Meaningful for `d != 0`.
pub open spec fn fx_mul_div(a: int, b: int, d: int) -> int {
    sat(trunc_div(a * b, d))
}

/// Raw result of interpolating from `start` to `end`.
pub open spec fn fx_lerp(start: int, end: int, ratio: int) -> int {
    fx_add(fx_mul(start, fx_sub(SCALE as int, ratio)), fx_mul(end, ratio))
}

/// Division of 128-bit integers that rounds toward zero.
pub fn div_toward_zero(n: i128, d: i128) -> (q: i128)
    requires
        d != 0,
        n > i128::MIN,
        d > i128::MIN,
    ensures
        q as int == trunc_div(n as int, d as int),
{
    let n_abs: u128 = if n < 0 {
        (-n) as u128
    } else {
        n as u128
    };
    let d_abs: u128 = if d < 0 {
        (-d) as u128
    } else {
        d as u128
    };
    let q_abs: u128 = n_abs / d_abs;
    assert(q_abs <= n_abs) by (nonlinear_arith)
        requires
            q_abs == n_abs / d_abs,
            d_abs > 0,
    ;
    if (n < 0) != (d < 0) {
        -(q_abs as i128)
    } else {
        q_abs as i128
    }
}

/// A fixed-point number, viewed as the count of millionths it holds.
#[derive(Clone, Copy, Debug)]
pub struct Scalar {
    raw: i64,
}

impl View for Scalar {
    type V = int;

    closed spec fn view(&self) -> int {
        self.raw as int
    }
}

impl Scalar {
    /// Every scalar lies within the limit.
    #[verifier::type_invariant]
    pub open spec fn representable(self) -> bool {
        in_range(self@)
    }

    /// Brings a wide exact result into a scalar, saturating.
    fn narrow(wide: i128) -> (s: Scalar)
        ensures
            s@ == sat(wide as int),
    {
        if wide > LIMIT as i128 {
            Scalar { raw: LIMIT }
        } else if wide < -(LIMIT as i128) {
            Scalar { raw: -LIMIT }
        } else {
            Scalar { raw: wide as i64 }
        }
    }

    /// The scalar nearest to `wide` millionths.
    pub fn saturating_from(wide: i128) -> (s: Scalar)
        ensures
            s@ == sat(wide as int),
    {
        Scalar::narrow(wide)
    }

    /// The scalar holding `raw` millionths. The one raw value outside the
    /// symmetric range is clamped into it.
    pub fn from_raw(raw: i64) -> (s: Scalar)
        ensures
            s@ == sat(raw as int),
    {
        Scalar::narrow(raw as i128)
    }

    /// The scalar holding `units` whole units, saturating.
    pub fn from_int(units: i64) -> (s: Scalar)
        ensures
            s@ == sat(units as int * SCALE as int),
    {
        let wide: i128 = units as i128 * 1_000_000;
        Scalar::narrow(wide)
    }

    /// Zero.
    pub fn zero() -> (s: Scalar)
        ensures
            s@ == 0,
    {
        Scalar { raw: 0 }
    }

    /// One.
    pub fn one() -> (s: Scalar)
        ensures
            s@ == SCALE as int,
    {
        Scalar { raw: SCALE }
    }

    /// The number of millionths this scalar holds, always within the limit.
    pub fn raw(&self) -> (r: i64)
        ensures
            r as int == self@,
            in_range(self@),
    {
        proof {
            use_type_invariant(self);
        }
        self.raw
    }

    /// Saturating sum.
    pub fn add(self, rhs: Scalar) -> (s: Scalar)
        ensures
            s@ == fx_add(self@, rhs@),
    {
        Scalar::narrow(self.raw as i128 + rhs.raw as i128)
    }

    /// Saturating difference.
    pub fn sub(self, rhs: Scalar) -> (s: Scalar)
        ensures
            s@ == fx_sub(self@, rhs@),
    {
        Scalar::narrow(self.raw as i128 - rhs.raw as i128)
    }

    /// Exact negation.
    pub fn neg(self) -> (s: Scalar)
        ensures
            s@ == -self@,
    {
        proof {
            use_type_invariant(&self);
        }
        Scalar { raw: -self.raw }
    }

    /// Product, rounded toward zero and saturated.
    pub fn mul(self, rhs: Scalar) -> (s: Scalar)
        ensures
            s@ == fx_mul(self@, rhs@),
    {
        let a: i128 = self.raw as i128;
        let b: i128 = rhs.raw as i128;
        assert(-0x4000_0000_0000_0000_0000_0000_0000_0000 <= a * b
            <= 0x4000_0000_0000_0000_0000_0000_0000_0000) by (nonlinear_arith)
            requires
                -0x8000_0000_0000_0000 <= a <= 0x8000_0000_0000_0000,
                -0x8000_0000_0000_0000 <= b <= 0x8000_0000_0000_0000,
        ;
        Scalar::narrow(div_toward_zero(a * b, SCALE as i128))
    }

    /// Quotient, rounded toward zero and saturated.
    pub fn div(self, rhs: Scalar) -> (s: Scalar)
        requires
            rhs@ != 0,
        ensures
            s@ == fx_div(self@, rhs@),
    {
        let wide: i128 = self.raw as i128 * 1_000_000;
        Scalar::narrow(div_toward_zero(wide, rhs.raw as i128))
    }

    /// Half of this scalar, rounded toward zero.
    pub fn half(self) -> (s: Scalar)
        ensures
            s@ == fx_half(self@),
    {
        proof {
            use_type_invariant(&self);
        }
        Scalar::narrow(div_toward_zero(self.raw as i128, 2))
    }

    /// Multiplies by `by` and divides by `d` with a single rounding.
    pub fn mul_div(self, by: Scalar, d: i128) -> (s: Scalar)
        requires
            d != 0,
            d > i128::MIN,
        ensures
            s@ == fx_mul_div(self@, by@, d as int),
    {
        let a: i128 = self.raw as i128;
        let b: i128 = by.raw as i128;
        assert(-0x4000_0000_0000_0000_0000_0000_0000_0000 <= a * b
            <= 0x4000_0000_0000_0000_0000_0000_0000_0000) by (nonlinear_arith)
            requires
                -0x8000_0000_0000_0000 <= a <= 0x8000_0000_0000_0000,
                -0x8000_0000_0000_0000 <= b <= 0x8000_0000_0000_0000,
        ;
        Scalar::narrow(div_toward_zero(a * b, d))
    }

    /// Whether this scalar is zero.
    pub fn is_zero(&self) -> (b: bool)
        ensures
            b == (self@ == 0),
    {
        self.raw == 0
    }

    /// Whether this scalar is strictly below `rhs`.
    pub fn lt(&self, rhs: &Scalar) -> (b: bool)
        ensures
            b == (self@ < rhs@),
    {
        self.raw < rhs.raw
    }

    /// Whether this scalar is at most `rhs`.
    pub fn le(&self, rhs: &Scalar) -> (b: bool)
        ensures
            b == (self@ <= rhs@),
    {
        self.raw <= rhs.raw
    }

    /// Whether two scalars hold the same value.
    pub fn same(&self, rhs: &Scalar) -> (b: bool)
        ensures
            b == (self@ == rhs@),
    {
        self.raw == rhs.raw
    }
}

/// Linear interpolation: `start * (1 - ratio) + end * ratio`, each step a
/// fixed-point operation.
pub fn lerp(start: Scalar, end: Scalar, ratio: Scalar) -> (r: Scalar)
    ensures
        r@ == fx_lerp(start@, end@, ratio@),
{
    start.mul(Scalar::one().sub(ratio)).add(end.mul(ratio))
}

/// Zero divided by anything but zero is zero.
pub proof fn lemma_trunc_div_zero(d: int)
    requires
        d != 0,
    ensures
        trunc_div(0, d) == 0,
{
    assert(0int / magnitude(d) == 0) by (nonlinear_arith)
        requires
            magnitude(d) > 0,
    ;
}

/// Rounding toward zero commutes with negation.
pub proof fn lemma_trunc_div_neg(n: int, d: int)
    requires
        d != 0,
    ensures
        trunc_div(-n, d) == -trunc_div(n, d),
{
    if n == 0 {
        lemma_trunc_div_zero(d);
    }
}

/// A quotient rounded toward zero is no larger in magnitude than the exact
/// quotient.
pub proof fn lemma_trunc_div_bound(n: int, d: int)
    requires
        d != 0,
    ensures
        magnitude(trunc_div(n, d)) == magnitude(n) / magnitude(d),
        0 <= magnitude(trunc_div(n, d)) * magnitude(d) <= magnitude(n),
        magnitude(trunc_div(n, d)) <= magnitude(n),
{
    let a = magnitude(n);
    let b = magnitude(d);
    assert(0 <= (a / b) * b <= a && a / b <= a) by (nonlinear_arith)
        requires
            a >= 0,
            b > 0,
    ;
}

/// Dividing a larger non-negative number by the same positive number gives
/// no less.
pub proof fn lemma_trunc_div_monotone(n1: int, n2: int, d: int)
    requires
        0 <= n1 <= n2,
        d > 0,
    ensures
        0 <= trunc_div(n1, d) <= trunc_div(n2, d),
{
    assert(0 <= n1 / d <= n2 / d) by (nonlinear_arith)
        requires
            0 <= n1 <= n2,
            d > 0,
    ;
}

/// A multiple of the divisor is divided exactly.
pub proof fn lemma_trunc_div_exact(q: int, d: int)
    requires
        d != 0,
    ensures
        trunc_div(q * d, d) == q,
{
    let a = magnitude(q);
    let b = magnitude(d);
    assert(magnitude(q * d) == a * b) by (nonlinear_arith)
        requires
            a == magnitude(q),
            b == magnitude(d),
    ;
    assert((a * b) / b == a) by (nonlinear_arith)
        requires
            a >= 0,
            b > 0,
    ;
    assert(q * d < 0 <==> (q < 0) != (d < 0) && q != 0) by (nonlinear_arith)
        requires
            d != 0,
    ;
}

/// Saturation keeps the order.
pub proof fn lemma_sat_monotone(a: int, b: int)
    requires
        a <= b,
    ensures
        sat(a) <= sat(b),
{
}

/// A product with zero is zero.
pub proof fn lemma_fx_mul_zero(k: int)
    ensures
        fx_mul(0, k) == 0,
        fx_mul(k, 0) == 0,
{
    assert(0 * k == 0 && k * 0 == 0) by (nonlinear_arith);
    lemma_trunc_div_zero(SCALE as int);
}

/// Multiplying by one changes nothing.
pub proof fn lemma_fx_mul_one(a: int)
    requires
        in_range(a),
    ensures
        fx_mul(a, SCALE as int) == a,
        fx_mul(SCALE as int, a) == a,
{
    lemma_trunc_div_exact(a, SCALE as int);
    assert(SCALE as int * a == a * SCALE as int) by (nonlinear_arith);
}

/// Zero divided by a scalar other than zero is zero.
pub proof fn lemma_fx_div_zero(m: int)
    requires
        m != 0,
    ensures
        fx_div(0, m) == 0,
{
    lemma_trunc_div_zero(m);
}

/// Products are odd in their first factor.
pub proof fn lemma_fx_mul_neg(a: int, b: int)
    ensures
        fx_mul(-a, b) == -fx_mul(a, b),
{
    assert((-a) * b == -(a * b)) by (nonlinear_arith);
    lemma_trunc_div_neg(a * b, SCALE as int);
}

/// Quotients are odd in their numerator.
pub proof fn lemma_fx_div_neg(a: int, b: int)
    requires
        b != 0,
    ensures
        fx_div(-a, b) == -fx_div(a, b),
{
    assert((-a) * SCALE as int == -(a * SCALE as int)) by (nonlinear_arith);
    lemma_trunc_div_neg(a * SCALE as int, b);
}

/// Among non-negative scalars a larger factor gives no smaller a product.
pub proof fn lemma_fx_mul_monotone(a1: int, a2: int, b: int)
    requires
        0 <= a1 <= a2,
        0 <= b,
    ensures
        0 <= fx_mul(a1, b) <= fx_mul(a2, b),
        0 <= fx_mul(b, a1) <= fx_mul(b, a2),
{
    assert(0 <= a1 * b <= a2 * b && b * a1 == a1 * b && b * a2 == a2 * b) by (nonlinear_arith)
        requires
            0 <= a1 <= a2,
            0 <= b,
    ;
    lemma_trunc_div_monotone(a1 * b, a2 * b, SCALE as int);
}

/// Among non-negative scalars a larger numerator gives no smaller a
/// quotient by the same positive scalar.
pub proof fn lemma_fx_div_monotone(a1: int, a2: int, m: int)
    requires
        0 <= a1 <= a2,
        0 < m,
    ensures
        0 <= fx_div(a1, m) <= fx_div(a2, m),
{
    lemma_trunc_div_monotone(a1 * SCALE as int, a2 * SCALE as int, m);
}

} // verus!
