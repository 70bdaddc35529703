//! Two-dimensional vectors of fixed-point numbers.

use vstd::prelude::*;
use crate::fixed::{div_toward_zero, sat, wide_product, Fixed, SCALE};
use crate::sqrt::{ceil_sqrt, floor_sqrt, is_floor_sqrt, isqrt, isqrt_ceil};

verus! {

/// A point or a displacement in the plane.
#[derive(Clone, Copy, Debug, PartialEq, Eq, Structural, Hash)]
pub struct Vec2 {
    pub x: Fixed,
    pub y: Fixed,
}

/// The magnitude of a raw value.
fn magnitude(a: i64) -> (r: u128)
    ensures
        r == if a < 0 { -a } else { a as int },
        r <= 0x8000_0000_0000_0000,
{
    if a < 0 {
        (-(a as i128)) as u128
    } else {
        a as u128
    }
}

/// Dividing `x * m` and `y * m` by a length `l` that bounds `(x, y)` gives a
/// vector no longer than `m`.
pub proof fn lemma_scaled_components(x: int, y: int, m: int, l: int)
    requires
        m > 0,
        l > 0,
        x * x + y * y <= l * l,
    ensures
        ({
            let a = div_toward_zero(x * m, l);
            let b = div_toward_zero(y * m, l);
            a * a + b * b <= m * m && -m <= a <= m && -m <= b <= m
        }),
{
    let ax = if x < 0 { -x } else { x };
    let ay = if y < 0 { -y } else { y };
    let a = div_toward_zero(x * m, l);
    let b = div_toward_zero(y * m, l);
    let pa = (ax * m) / l;
    let pb = (ay * m) / l;
    assert(x * m >= 0 <==> x >= 0 || x * m == 0) by (nonlinear_arith)
        requires
            m > 0,
    ;
    assert(y * m >= 0 <==> y >= 0 || y * m == 0) by (nonlinear_arith)
        requires
            m > 0,
    ;
    assert(-(x * m) == (-x) * m) by (nonlinear_arith);
    assert(-(y * m) == (-y) * m) by (nonlinear_arith);
    assert(x * m == 0 ==> ax * m == 0) by (nonlinear_arith)
        requires
            ax == x || ax == -x,
    ;
    assert(y * m == 0 ==> ay * m == 0) by (nonlinear_arith)
        requires
            ay == y || ay == -y,
    ;
    assert(a == pa || a == -pa);
    assert(b == pb || b == -pb);
    assert(a * a == pa * pa) by (nonlinear_arith)
        requires
            a == pa || a == -pa,
    ;
    assert(b * b == pb * pb) by (nonlinear_arith)
        requires
            b == pb || b == -pb,
    ;
    assert(ax * ax == x * x) by (nonlinear_arith)
        requires
            ax == x || ax == -x,
    ;
    assert(ay * ay == y * y) by (nonlinear_arith)
        requires
            ay == y || ay == -y,
    ;
    assert(0 <= pa && pa * l <= ax * m) by (nonlinear_arith)
        requires
            pa == (ax * m) / l,
            l > 0,
            ax >= 0,
            m > 0,
    ;
    assert(0 <= pb && pb * l <= ay * m) by (nonlinear_arith)
        requires
            pb == (ay * m) / l,
            l > 0,
            ay >= 0,
            m > 0,
    ;
    lemma_bounded_squares(pa, pb, ax, ay, m, l);
    assert(pa <= m && pb <= m) by (nonlinear_arith)
        requires
            pa * pa + pb * pb <= m * m,
            pa >= 0,
            pb >= 0,
            m > 0,
    ;
}

proof fn lemma_bounded_squares(pa: int, pb: int, ax: int, ay: int, m: int, l: int)
    requires
        0 <= pa,
        0 <= pb,
        0 <= ax,
        0 <= ay,
        m > 0,
        l > 0,
        pa * l <= ax * m,
        pb * l <= ay * m,
        ax * ax + ay * ay <= l * l,
    ensures
        pa * pa + pb * pb <= m * m,
{
    assert((pa * l) * (pa * l) <= (ax * m) * (ax * m)) by (nonlinear_arith)
        requires
            0 <= pa * l <= ax * m,
    ;
    assert((pb * l) * (pb * l) <= (ay * m) * (ay * m)) by (nonlinear_arith)
        requires
            0 <= pb * l <= ay * m,
    ;
    assert(0 <= pa * l) by (nonlinear_arith)
        requires
            0 <= pa,
            0 < l,
    ;
    assert(0 <= pb * l) by (nonlinear_arith)
        requires
            0 <= pb,
            0 < l,
    ;
    assert((pa * l) * (pa * l) == (pa * pa) * (l * l)) by (nonlinear_arith);
    assert((pb * l) * (pb * l) == (pb * pb) * (l * l)) by (nonlinear_arith);
    assert((ax * m) * (ax * m) == (ax * ax) * (m * m)) by (nonlinear_arith);
    assert((ay * m) * (ay * m) == (ay * ay) * (m * m)) by (nonlinear_arith);
    let s = pa * pa + pb * pb;
    let t = ax * ax + ay * ay;
    let ll = l * l;
    let mm = m * m;
    assert(s * ll == (pa * pa) * ll + (pb * pb) * ll) by (nonlinear_arith)
        requires
            s == pa * pa + pb * pb,
    ;
    assert(t * mm == (ax * ax) * mm + (ay * ay) * mm) by (nonlinear_arith)
        requires
            t == ax * ax + ay * ay,
    ;
    assert(s * ll <= t * mm);
    assert(t * mm <= ll * mm) by (nonlinear_arith)
        requires
            t <= ll,
            mm >= 0,
    ;
    assert(mm >= 0) by (nonlinear_arith)
        requires
            mm == m * m,
    ;
    assert(ll > 0) by (nonlinear_arith)
        requires
            ll == l * l,
            l > 0,
    ;
    assert(s <= mm) by (nonlinear_arith)
        requires
            s * ll <= ll * mm,
            ll > 0,
    ;
}

impl Vec2 {
    /// The squared length in raw units: `x² + y²` over the raw components.
    pub open spec fn norm_sq(self) -> int {
        self.x.0 * self.x.0 + self.y.0 * self.y.0
    }

    pub open spec fn spec_zero() -> Vec2 {
        Vec2 { x: Fixed(0), y: Fixed(0) }
    }

    /// The zero vector.
    #[verifier::when_used_as_spec(spec_zero)]
    pub fn zero() -> (r: Vec2)
        ensures
            r == Vec2::spec_zero(),
    {
        Vec2 { x: Fixed(0), y: Fixed(0) }
    }

    /// The vector with the given components.
    pub fn new(x: Fixed, y: Fixed) -> (r: Vec2)
        ensures
            r == (Vec2 { x, y }),
    {
        Vec2 { x, y }
    }

    pub open spec fn spec_is_zero(self) -> bool {
        self.x.0 == 0 && self.y.0 == 0
    }

    /// Whether both components are 0.
    #[verifier::when_used_as_spec(spec_is_zero)]
    pub fn is_zero(self) -> (r: bool)
        ensures
            r == self.spec_is_zero(),
    {
        self.x.0 == 0 && self.y.0 == 0
    }

    pub open spec fn spec_add(self, o: Vec2) -> Vec2 {
        Vec2 { x: self.x.add(o.x), y: self.y.add(o.y) }
    }

    /// Component-wise saturating sum.
    #[verifier::when_used_as_spec(spec_add)]
    pub fn add(self, o: Vec2) -> (r: Vec2)
        ensures
            r == self.spec_add(o),
    {
        Vec2 { x: self.x.add(o.x), y: self.y.add(o.y) }
    }

    pub open spec fn spec_sub(self, o: Vec2) -> Vec2 {
        Vec2 { x: self.x.sub(o.x), y: self.y.sub(o.y) }
    }

    /// Component-wise saturating difference.
    #[verifier::when_used_as_spec(spec_sub)]
    pub fn sub(self, o: Vec2) -> (r: Vec2)
        ensures
            r == self.spec_sub(o),
    {
        Vec2 { x: self.x.sub(o.x), y: self.y.sub(o.y) }
    }

    pub open spec fn spec_neg(self) -> Vec2 {
        Vec2 { x: self.x.neg(), y: self.y.neg() }
    }

    /// The opposite vector.
    #[verifier::when_used_as_spec(spec_neg)]
    pub fn neg(self) -> (r: Vec2)
        ensures
            r == self.spec_neg(),
    {
        Vec2 { x: self.x.neg(), y: self.y.neg() }
    }

    pub open spec fn spec_scale(self, k: Fixed) -> Vec2 {
        Vec2 { x: self.x.mul(k), y: self.y.mul(k) }
    }

    /// Both components multiplied by `k`.
    #[verifier::when_used_as_spec(spec_scale)]
    pub fn scale(self, k: Fixed) -> (r: Vec2)
        ensures
            r == self.spec_scale(k),
    {
        Vec2 { x: self.x.mul(k), y: self.y.mul(k) }
    }

    pub open spec fn spec_dot(self, o: Vec2) -> Fixed {
        self.x.mul(o.x).add(self.y.mul(o.y))
    }

    /// Dot product.
    #[verifier::when_used_as_spec(spec_dot)]
    pub fn dot(self, o: Vec2) -> (r: Fixed)
        ensures
            r == self.spec_dot(o),
    {
        self.x.mul(o.x).add(self.y.mul(o.y))
    }

    /// `norm_sq` as an executable value.
    pub fn norm_sq_wide(self) -> (r: u128)
        ensures
            r == self.norm_sq(),
            r <= 0x8000_0000_0000_0000_0000_0000_0000_0000,
    {
        let ax: u128 = magnitude(self.x.0);
        let ay: u128 = magnitude(self.y.0);
        assert(ax * ax <= 0x4000_0000_0000_0000_0000_0000_0000_0000 && ax * ax == self.x.0
            * self.x.0) by (nonlinear_arith)
            requires
                ax <= 0x8000_0000_0000_0000,
                ax == self.x.0 || ax == -self.x.0,
        ;
        assert(ay * ay <= 0x4000_0000_0000_0000_0000_0000_0000_0000 && ay * ay == self.y.0
            * self.y.0) by (nonlinear_arith)
            requires
                ay <= 0x8000_0000_0000_0000,
                ay == self.y.0 || ay == -self.y.0,
        ;
        ax * ax + ay * ay
    }

    pub open spec fn spec_length(self) -> Fixed {
        Fixed(sat(floor_sqrt(self.norm_sq())) as i64)
    }

    /// Euclidean length, rounded down (and saturated).
    #[verifier::when_used_as_spec(spec_length)]
    pub fn length(self) -> (r: Fixed)
        ensures
            r == self.spec_length(),
            r.0 >= 0,
            r.0 < i64::MAX ==> is_floor_sqrt(self.norm_sq(), r.0 as int),
            r.0 == 0 <==> self.is_zero(),
    {
        let n: u128 = self.norm_sq_wide();
        let r: u64 = isqrt(n);
        proof {
            if self.is_zero() {
                assert(self.norm_sq() == 0);
                assert(r == 0) by (nonlinear_arith)
                    requires
                        r * r <= 0,
                        r >= 0,
                ;
            } else {

                assert(self.norm_sq() >= 1) by (nonlinear_arith)
                    requires
                        self.x.0 != 0 || self.y.0 != 0,
                        self.norm_sq() == self.x.0 * self.x.0 + self.y.0 * self.y.0,
                ;
                assert(r != 0) by (nonlinear_arith)
                    requires
                        1 <= n < (r + 1) * (r + 1),
                ;
            }
        }
        if r > i64::MAX as u64 {
            Fixed(i64::MAX)
        } else {
            Fixed(r as i64)
        }
    }

    pub open spec fn spec_distance(self, o: Vec2) -> Fixed {
        self.sub(o).length()
    }

    /// Length of the difference of two vectors.
    #[verifier::when_used_as_spec(spec_distance)]
    pub fn distance(self, o: Vec2) -> (r: Fixed)
        ensures
            r == self.spec_distance(o),
            r.0 >= 0,
    {
        self.sub(o).length()
    }

    pub open spec fn spec_normalize_or_zero(self) -> Vec2 {
        let l = ceil_sqrt(self.norm_sq());
        if l == 0 {
            Vec2::zero()
        } else {
            Vec2 {
                x: Fixed(div_toward_zero(self.x.0 * SCALE, l) as i64),
                y: Fixed(div_toward_zero(self.y.0 * SCALE, l) as i64),
            }
        }
    }

    /// The vector scaled to unit length, or zero for the zero vector.
    /// Rounding is toward zero, so the result is never longer than 1.
    #[verifier::when_used_as_spec(spec_normalize_or_zero)]
    pub fn normalize_or_zero(self) -> (r: Vec2)
        ensures
            r == self.spec_normalize_or_zero(),
            r.norm_sq() <= SCALE * SCALE,
            self.is_zero() ==> r.is_zero(),
    {
        let n: u128 = self.norm_sq_wide();
        let l: u128 = isqrt_ceil(n);
        if l == 0 {
            assert(0 * 0 == 0int);
            Vec2::zero()
        } else {
            proof {
                lemma_scaled_components(self.x.0 as int, self.y.0 as int, SCALE as int, l as int);
            }
            let d: i128 = l as i128;
            let qx: i128 = wide_product(self.x.0, SCALE) / d;
            let qy: i128 = wide_product(self.y.0, SCALE) / d;
            Vec2 { x: Fixed(qx as i64), y: Fixed(qy as i64) }
        }
    }

    pub open spec fn spec_clamp_length(self, max: Fixed) -> Vec2 {
        if max.0 <= 0 {
            Vec2::zero()
        } else if self.norm_sq() <= max.0 * max.0 {
            self
        } else {
            let l = ceil_sqrt(self.norm_sq());
            Vec2 {
                x: Fixed(div_toward_zero(self.x.0 * max.0, l) as i64),
                y: Fixed(div_toward_zero(self.y.0 * max.0, l) as i64),
            }
        }
    }

    /// The vector shortened to length `max` where it is longer, keeping its
    /// direction; unchanged where it is not. A `max` of 0 or less gives zero.
    #[verifier::when_used_as_spec(spec_clamp_length)]
    pub fn clamp_length(self, max: Fixed) -> (r: Vec2)
        ensures
            r == self.spec_clamp_length(max),
            max.0 >= 0 ==> r.norm_sq() <= max.0 * max.0,
            max.0 > 0 && self.norm_sq() <= max.0 * max.0 ==> r == self,
    {
        if max.0 <= 0 {
            assert(0 * 0 == 0int);
            assert(max.0 * max.0 >= 0) by (nonlinear_arith);
            return Vec2::zero();
        }
        let n: u128 = self.norm_sq_wide();
        let m: u128 = magnitude(max.0);
        assert(m * m <= 0x4000_0000_0000_0000_0000_0000_0000_0000 && m * m == max.0 * max.0)
            by (nonlinear_arith)
            requires
                m <= 0x8000_0000_0000_0000,
                m == max.0,
        ;
        if n <= m * m {
            self
        } else {
            let l: u128 = isqrt_ceil(n);
            proof {
                lemma_scaled_components(self.x.0 as int, self.y.0 as int, max.0 as int, l as int);
            }
            let d: i128 = l as i128;
            let qx: i128 = wide_product(self.x.0, max.0) / d;
            let qy: i128 = wide_product(self.y.0, max.0) / d;
            Vec2 { x: Fixed(qx as i64), y: Fixed(qy as i64) }
        }
    }
}

} // verus!
