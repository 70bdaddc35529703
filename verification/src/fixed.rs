//! Fixed-point scalars with six decimal places.
//!
//! A [`Fixed`] holds a count of millionths in an `i64`. Arithmetic saturates
//! at the ends of the `i64` range and rounds toward zero, so no operation
//! panics and rounding never enlarges a magnitude.

use vstd::prelude::*;

verus! {

/// Raw units per whole unit.
pub const SCALE: i64 = 1_000_000;

/// `x` clamped into the range of `i64`.
pub open spec fn sat(x: int) -> int {
    if x < i64::MIN {
        i64::MIN as int
    } else if x > i64::MAX {
        i64::MAX as int
    } else {
        x
    }
}

/// Quotient of `a` by a positive `b`, rounded toward zero.
pub open spec fn div_toward_zero(a: int, b: int) -> int
    recommends
        b > 0,
{
    if a >= 0 {
        a / b
    } else {
        -((-a) / b)
    }
}

/// Quotient of `a` by a non-zero `b` of either sign, rounded toward zero.
pub open spec fn signed_div(a: int, b: int) -> int
    recommends
        b != 0,
{
    if b > 0 {
        div_toward_zero(a, b)
    } else {
        -div_toward_zero(a, -b)
    }
}

/// A fixed-point number: `self.0` millionths.
#[derive(Clone, Copy, Debug, PartialEq, Eq, Structural, PartialOrd, Ord, Hash)]
pub struct Fixed(pub i64);

/// Narrows a wide intermediate result to `i64`, saturating.
fn saturate(x: i128) -> (r: i64)
    ensures
        r == sat(x as int),
{
    if x < i64::MIN as i128 {
        i64::MIN
    } else if x > i64::MAX as i128 {
        i64::MAX
    } else {
        x as i64
    }
}

impl Fixed {
    pub open spec fn spec_zero() -> Fixed {
        Fixed(0)
    }

    /// The number 0.
    #[verifier::when_used_as_spec(spec_zero)]
    pub fn zero() -> (r: Fixed)
        ensures
            r == Fixed::spec_zero(),
    {
        Fixed(0)
    }

    pub open spec fn spec_one() -> Fixed {
        Fixed(SCALE)
    }

    /// The number 1.
    #[verifier::when_used_as_spec(spec_one)]
    pub fn one() -> (r: Fixed)
        ensures
            r == Fixed::spec_one(),
    {
        Fixed(SCALE)
    }

    pub open spec fn spec_from_int(n: i32) -> Fixed {
        Fixed((n * SCALE) as i64)
    }

    /// The whole number `n`.
    #[verifier::when_used_as_spec(spec_from_int)]
    pub fn from_int(n: i32) -> (r: Fixed)
        ensures
            r == Fixed::spec_from_int(n),
            r.0 == n * SCALE,
    {
        Fixed((n as i64) * SCALE)
    }

    pub open spec fn spec_from_ratio(num: i64, den: i64) -> Fixed {
        if den == 0 {
            Fixed(if num > 0 { i64::MAX } else if num < 0 { i64::MIN } else { 0 })
        } else {
            Fixed(sat(signed_div(num * SCALE, den as int)) as i64)
        }
    }

    /// The fraction `num / den`, rounded toward zero. A zero `den` saturates
    /// by the sign of `num`.
    #[verifier::when_used_as_spec(spec_from_ratio)]
    pub fn from_ratio(num: i64, den: i64) -> (r: Fixed)
        ensures
            r == Fixed::spec_from_ratio(num, den),
    {
        if den == 0 {
            if num > 0 {
                Fixed(i64::MAX)
            } else if num < 0 {
                Fixed(i64::MIN)
            } else {
                Fixed(0)
            }
        } else {
            let n: i128 = wide_product(num, SCALE);
            if den > 0 {
                Fixed(saturate(n / (den as i128)))
            } else {
                let d: i128 = -(den as i128);
                Fixed(saturate(-(n / d)))
            }
        }
    }

    pub open spec fn spec_add(self, o: Fixed) -> Fixed {
        Fixed(sat(self.0 + o.0) as i64)
    }

    /// Saturating sum.
    #[verifier::when_used_as_spec(spec_add)]
    pub fn add(self, o: Fixed) -> (r: Fixed)
        ensures
            r == self.spec_add(o),
    {
        Fixed(saturate(self.0 as i128 + o.0 as i128))
    }

    pub open spec fn spec_sub(self, o: Fixed) -> Fixed {
        Fixed(sat(self.0 - o.0) as i64)
    }

    /// Saturating difference.
    #[verifier::when_used_as_spec(spec_sub)]
    pub fn sub(self, o: Fixed) -> (r: Fixed)
        ensures
            r == self.spec_sub(o),
    {
        Fixed(saturate(self.0 as i128 - o.0 as i128))
    }

    pub open spec fn spec_neg(self) -> Fixed {
        Fixed(sat(-self.0) as i64)
    }

    /// Saturating negation.
    #[verifier::when_used_as_spec(spec_neg)]
    pub fn neg(self) -> (r: Fixed)
        ensures
            r == self.spec_neg(),
    {
        Fixed(saturate(-(self.0 as i128)))
    }

    pub open spec fn spec_mul(self, o: Fixed) -> Fixed {
        Fixed(sat(div_toward_zero(self.0 * o.0, SCALE as int)) as i64)
    }

    /// Saturating product, rounded toward zero.
    #[verifier::when_used_as_spec(spec_mul)]
    pub fn mul(self, o: Fixed) -> (r: Fixed)
        ensures
            r == self.spec_mul(o),
    {
        let p: i128 = wide_product(self.0, o.0);
        Fixed(saturate(p / (SCALE as i128)))
    }

    pub open spec fn spec_div(self, o: Fixed) -> Fixed {
        if o.0 == 0 {
            Fixed(if self.0 > 0 { i64::MAX } else if self.0 < 0 { i64::MIN } else { 0 })
        } else {
            Fixed(sat(signed_div(self.0 * SCALE, o.0 as int)) as i64)
        }
    }

    /// Saturating quotient, rounded toward zero. Division by zero saturates
    /// by the sign of the dividend, and `0 / 0` is 0.
    #[verifier::when_used_as_spec(spec_div)]
    pub fn div(self, o: Fixed) -> (r: Fixed)
        ensures
            r == self.spec_div(o),
            r == Fixed::spec_from_ratio(self.0, o.0),
    {
        Fixed::from_ratio(self.0, o.0)
    }

    pub open spec fn spec_mul_int(self, n: i64) -> Fixed {
        Fixed(sat(self.0 * n) as i64)
    }

    /// Saturating product with a whole number.
    #[verifier::when_used_as_spec(spec_mul_int)]
    pub fn mul_int(self, n: i64) -> (r: Fixed)
        ensures
            r == self.spec_mul_int(n),
    {
        Fixed(saturate(wide_product(self.0, n)))
    }

    pub open spec fn spec_div_int(self, n: i64) -> Fixed {
        if n == 0 {
            Fixed(if self.0 > 0 { i64::MAX } else if self.0 < 0 { i64::MIN } else { 0 })
        } else {
            Fixed(sat(signed_div(self.0 as int, n as int)) as i64)
        }
    }

    /// Saturating quotient by a whole number, rounded toward zero.
    /// Division by zero saturates by the sign of the dividend.
    #[verifier::when_used_as_spec(spec_div_int)]
    pub fn div_int(self, n: i64) -> (r: Fixed)
        ensures
            r == self.spec_div_int(n),
    {
        if n == 0 {
            if self.0 > 0 {
                Fixed(i64::MAX)
            } else if self.0 < 0 {
                Fixed(i64::MIN)
            } else {
                Fixed(0)
            }
        } else if n > 0 {
            Fixed(saturate((self.0 as i128) / (n as i128)))
        } else {
            let d: i128 = -(n as i128);
            Fixed(saturate(-((self.0 as i128) / d)))
        }
    }

    pub open spec fn spec_min(self, o: Fixed) -> Fixed {
        if self.0 <= o.0 { self } else { o }
    }

    /// The smaller of two numbers.
    #[verifier::when_used_as_spec(spec_min)]
    pub fn min(self, o: Fixed) -> (r: Fixed)
        ensures
            r == self.spec_min(o),
    {
        if self.0 <= o.0 { self } else { o }
    }

    pub open spec fn spec_max(self, o: Fixed) -> Fixed {
        if self.0 >= o.0 { self } else { o }
    }

    /// The larger of two numbers.
    #[verifier::when_used_as_spec(spec_max)]
    pub fn max(self, o: Fixed) -> (r: Fixed)
        ensures
            r == self.spec_max(o),
    {
        if self.0 >= o.0 { self } else { o }
    }

    pub open spec fn spec_clamp(self, lo: Fixed, hi: Fixed) -> Fixed {
        self.spec_max(lo).spec_min(hi)
    }

    /// `self` raised to at least `lo`, then lowered to at most `hi`.
    #[verifier::when_used_as_spec(spec_clamp)]
    pub fn clamp(self, lo: Fixed, hi: Fixed) -> (r: Fixed)
        ensures
            r == self.spec_clamp(lo, hi),
            lo.0 <= hi.0 ==> lo.0 <= r.0 <= hi.0,
    {
        self.max(lo).min(hi)
    }

    pub open spec fn spec_abs(self) -> Fixed {
        if self.0 < 0 { self.spec_neg() } else { self }
    }

    /// Saturating absolute value.
    #[verifier::when_used_as_spec(spec_abs)]
    pub fn abs(self) -> (r: Fixed)
        ensures
            r == self.spec_abs(),
            r.0 >= 0,
    {
        if self.0 < 0 { self.neg() } else { self }
    }
}

/// The exact product of two raw values.
pub fn wide_product(a: i64, b: i64) -> (p: i128)
    ensures
        p == a * b,
{
    assert(-0x4000_0000_0000_0000_0000_0000_0000_0000 <= a * b
        <= 0x4000_0000_0000_0000_0000_0000_0000_0000) by (nonlinear_arith)
        requires
            -0x8000_0000_0000_0000 <= a <= 0x7fff_ffff_ffff_ffff,
            -0x8000_0000_0000_0000 <= b <= 0x7fff_ffff_ffff_ffff,
    ;
    (a as i128) * (b as i128)
}

/// A product of two numbers that are not negative is not negative.
pub proof fn lemma_mul_nonneg(a: Fixed, b: Fixed)
    requires
        a.0 >= 0,
        b.0 >= 0,
    ensures
        a.mul(b).0 >= 0,
{
    assert(a.0 * b.0 >= 0) by (nonlinear_arith)
        requires
            a.0 >= 0,
            b.0 >= 0,
    ;
}

/// Multiplying a number that is not negative by a share between 0 and 1
/// gives a number between 0 and itself.
pub proof fn lemma_mul_by_share(a: Fixed, f: Fixed)
    requires
        a.0 >= 0,
        0 <= f.0 <= SCALE,
    ensures
        0 <= a.mul(f).0 <= a.0,
{
    assert(0 <= a.0 * f.0 <= a.0 * SCALE) by (nonlinear_arith)
        requires
            a.0 >= 0,
            0 <= f.0 <= SCALE,
    ;
}

/// Squaring keeps the order of numbers that are not negative.
pub proof fn lemma_square_le(a: int, b: int)
    requires
        0 <= a <= b,
    ensures
        a * a <= b * b,
{
    assert(a * a <= b * b) by (nonlinear_arith)
        requires
            0 <= a <= b,
    ;
}

impl Default for Fixed {
    fn default() -> (r: Fixed)
        ensures
            r == Fixed(0),
    {
        Fixed(0)
    }
}

} // verus!
