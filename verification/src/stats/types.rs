//! Numeric newtypes, each with the invariant its constructor enforces, and
//! the closed sets of kinds the simulation dispatches on.

use vstd::prelude::*;
use crate::fixed::{Fixed, SCALE};
use crate::vector::Vec2;

verus! {

/// A full turn in raw units (2π, rounded down).
pub const TAU_RAW: i64 = 6_283_185;

/// Half a turn in raw units (π, rounded to nearest).
pub const PI_RAW: i64 = 3_141_593;

/// A quarter turn in raw units.
pub const HALF_PI_RAW: i64 = 1_570_796;

/// An eighth of a turn in raw units.
pub const QUARTER_PI_RAW: i64 = 785_398;

/// Spin is health. Never below 0; a top holds it at or under its maximum.
#[derive(Debug, Clone, Copy, PartialEq, Eq, Structural, PartialOrd, Ord, Hash)]
pub struct SpinHp(pub Fixed);

impl SpinHp {
    /// Spin is never negative.
    pub open spec fn wf(self) -> bool {
        self.0.0 >= 0
    }

    pub open spec fn spec_new(v: Fixed) -> SpinHp {
        SpinHp(v.max(Fixed::zero()))
    }

    /// `v`, raised to 0 where it is negative.
    #[verifier::when_used_as_spec(spec_new)]
    pub fn new(v: Fixed) -> (r: SpinHp)
        ensures
            r == SpinHp::spec_new(v),
            r.wf(),
    {
        SpinHp(v.max(Fixed::zero()))
    }

    pub open spec fn spec_add_clamped(self, delta: Fixed, max: Fixed) -> SpinHp {
        SpinHp(self.0.add(delta).clamp(Fixed::zero(), max))
    }

    /// `self + delta`, held within `[0, max]`. A `max` below 0 gives `max`.
    #[verifier::when_used_as_spec(spec_add_clamped)]
    pub fn add_clamped(self, delta: Fixed, max: Fixed) -> (r: SpinHp)
        ensures
            r == self.spec_add_clamped(delta, max),
            max.0 >= 0 ==> 0 <= r.0.0 <= max.0,
    {
        SpinHp(self.0.add(delta).clamp(Fixed::zero(), max))
    }

    pub open spec fn spec_sub_clamped(self, delta: Fixed) -> SpinHp {
        SpinHp(self.0.sub(delta).max(Fixed::zero()))
    }

    /// `self - delta`, raised to 0 where it would be negative.
    #[verifier::when_used_as_spec(spec_sub_clamped)]
    pub fn sub_clamped(self, delta: Fixed) -> (r: SpinHp)
        ensures
            r == self.spec_sub_clamped(delta),
            r.wf(),
            delta.0 >= 0 ==> r.0.0 <= self.0.0 || r.0.0 == 0,
    {
        SpinHp(self.0.sub(delta).max(Fixed::zero()))
    }

    pub open spec fn spec_is_alive(self) -> bool {
        self.0.0 > 0
    }

    /// A top is alive while it has spin left.
    #[verifier::when_used_as_spec(spec_is_alive)]
    pub fn is_alive(self) -> (r: bool)
        ensures
            r == self.spec_is_alive(),
    {
        self.0.0 > 0
    }
}

impl Default for SpinHp {
    /// No spin.
    fn default() -> (r: SpinHp)
        ensures
            r == SpinHp(Fixed(0)),
    {
        SpinHp(Fixed(0))
    }
}

/// Radius in world units.
#[derive(Debug, Clone, Copy, PartialEq, Eq, Structural, PartialOrd, Ord, Hash)]
pub struct Radius(pub Fixed);

/// Speed in world units per second.
#[derive(Debug, Clone, Copy, PartialEq, Eq, Structural, PartialOrd, Ord, Hash)]
pub struct MetersPerSec(pub Fixed);

impl Default for Radius {
    /// No extent.
    fn default() -> (r: Radius)
        ensures
            r == Radius(Fixed(0)),
    {
        Radius(Fixed(0))
    }
}

impl Default for MetersPerSec {
    /// At rest.
    fn default() -> (r: MetersPerSec)
        ensures
            r == MetersPerSec(Fixed(0)),
    {
        MetersPerSec(Fixed(0))
    }
}

/// A span of time in seconds. Never negative.
#[derive(Debug, Clone, Copy, PartialEq, Eq, Structural, PartialOrd, Ord, Hash)]
pub struct Seconds(pub Fixed);

impl Seconds {
    /// A duration is never negative.
    pub open spec fn wf(self) -> bool {
        self.0.0 >= 0
    }

    pub open spec fn spec_new(v: Fixed) -> Seconds {
        Seconds(v.max(Fixed::zero()))
    }

    /// `v`, raised to 0 where it is negative.
    #[verifier::when_used_as_spec(spec_new)]
    pub fn new(v: Fixed) -> (r: Seconds)
        ensures
            r == Seconds::spec_new(v),
            r.wf(),
    {
        Seconds(v.max(Fixed::zero()))
    }

    pub open spec fn spec_dec(self, dt: Fixed) -> Seconds {
        Seconds(self.0.sub(dt).max(Fixed::zero()))
    }

    /// The time left after `dt` more has passed, stopping at 0.
    #[verifier::when_used_as_spec(spec_dec)]
    pub fn dec(self, dt: Fixed) -> (r: Seconds)
        ensures
            r == self.spec_dec(dt),
            r.wf(),
    {
        Seconds(self.0.sub(dt).max(Fixed::zero()))
    }

    pub open spec fn spec_is_expired(self) -> bool {
        self.0.0 <= 0
    }

    /// Whether no time is left.
    #[verifier::when_used_as_spec(spec_is_expired)]
    pub fn is_expired(self) -> (r: bool)
        ensures
            r == self.spec_is_expired(),
    {
        self.0.0 <= 0
    }
}

impl Default for Seconds {
    /// No time.
    fn default() -> (r: Seconds)
        ensures
            r == Seconds(Fixed(0)),
    {
        Seconds(Fixed(0))
    }
}

/// The largest multiplier, in raw units.
pub const MULTIPLIER_MAX_RAW: i64 = 10_000_000;

/// A multiplier, held in `[0, 10]`.
#[derive(Debug, Clone, Copy, PartialEq, Eq, Structural, PartialOrd, Ord, Hash)]
pub struct Multiplier(pub Fixed);

impl Multiplier {
    /// A multiplier lies in `[0, 10]`.
    pub open spec fn wf(self) -> bool {
        0 <= self.0.0 <= MULTIPLIER_MAX_RAW
    }

    pub open spec fn spec_new(v: Fixed) -> Multiplier {
        Multiplier(v.clamp(Fixed::zero(), Fixed(MULTIPLIER_MAX_RAW)))
    }

    /// `v`, held within `[0, 10]`.
    #[verifier::when_used_as_spec(spec_new)]
    pub fn new(v: Fixed) -> (r: Multiplier)
        ensures
            r == Multiplier::spec_new(v),
            r.wf(),
    {
        Multiplier(v.clamp(Fixed::zero(), Fixed(MULTIPLIER_MAX_RAW)))
    }

    pub open spec fn spec_one() -> Multiplier {
        Multiplier(Fixed::one())
    }

    /// The neutral multiplier.
    #[verifier::when_used_as_spec(spec_one)]
    pub fn one() -> (r: Multiplier)
        ensures
            r == Multiplier::spec_one(),
            r.wf(),
    {
        Multiplier(Fixed::one())
    }

    pub open spec fn spec_combine(self, rhs: Multiplier) -> Multiplier {
        Multiplier::new(self.0.mul(rhs.0))
    }

    /// The product of two multipliers, held within `[0, 10]`.
    #[verifier::when_used_as_spec(spec_combine)]
    pub fn combine(self, rhs: Multiplier) -> (r: Multiplier)
        ensures
            r == self.spec_combine(rhs),
            r.wf(),
    {
        Multiplier::new(self.0.mul(rhs.0))
    }
}

impl core::ops::Mul for Multiplier {
    type Output = Multiplier;

    /// The product of two multipliers, held within `[0, 10]`.
    fn mul(self, rhs: Multiplier) -> (r: Multiplier)
    {
        self.combine(rhs)
    }
}

impl vstd::std_specs::ops::MulSpecImpl for Multiplier {
    open spec fn obeys_mul_spec() -> bool {
        true
    }

    open spec fn mul_req(self, rhs: Multiplier) -> bool {
        true
    }

    open spec fn mul_spec(self, rhs: Multiplier) -> Multiplier {
        self.spec_combine(rhs)
    }
}

impl Default for Multiplier {
    fn default() -> (r: Multiplier)
        ensures
            r == Multiplier::one(),
    {
        Multiplier(Fixed::one())
    }
}

/// An angle in radians, held in `[0, 2π)`.
#[derive(Debug, Clone, Copy, PartialEq, Eq, Structural, PartialOrd, Ord, Hash)]
pub struct AngleRad(pub Fixed);

/// One step of a nested polynomial: `1 - (z * s) / k`.
pub open spec fn spec_poly_step(z: Fixed, s: Fixed, k: i64) -> Fixed
    recommends
        k > 0,
{
    Fixed::one().sub(Fixed(crate::fixed::div_toward_zero(z.mul(s).0 as int, k as int) as i64))
}

#[verifier::when_used_as_spec(spec_poly_step)]
fn poly_step(z: Fixed, s: Fixed, k: i64) -> (r: Fixed)
    requires
        1 < k <= 100,
    ensures
        r == spec_poly_step(z, s, k),
{
    Fixed::one().sub(Fixed(z.mul(s).0 / k))
}

/// Sine on `[0, π/4]`, by its series up to the seventh power.
pub open spec fn spec_sin_poly(x: Fixed) -> Fixed {
    let z = x.mul(x);
    x.mul(spec_poly_step(z, spec_poly_step(z, spec_poly_step(z, Fixed::one(), 42), 20), 6))
}

#[verifier::when_used_as_spec(spec_sin_poly)]
fn sin_poly(x: Fixed) -> (r: Fixed)
    ensures
        r == spec_sin_poly(x),
{
    let z = x.mul(x);
    x.mul(poly_step(z, poly_step(z, poly_step(z, Fixed::one(), 42), 20), 6))
}

/// Cosine on `[0, π/4]`, by its series up to the eighth power.
pub open spec fn spec_cos_poly(x: Fixed) -> Fixed {
    let z = x.mul(x);
    spec_poly_step(
        z,
        spec_poly_step(z, spec_poly_step(z, spec_poly_step(z, Fixed::one(), 56), 30), 12),
        2,
    )
}

#[verifier::when_used_as_spec(spec_cos_poly)]
fn cos_poly(x: Fixed) -> (r: Fixed)
    ensures
        r == spec_cos_poly(x),
{
    let z = x.mul(x);
    poly_step(z, poly_step(z, poly_step(z, poly_step(z, Fixed::one(), 56), 30), 12), 2)
}

/// Cosine and sine of an angle in the first quarter turn, before they are
/// brought to unit length.
pub open spec fn spec_quarter_cos_sin(x: Fixed) -> (Fixed, Fixed) {
    if x.0 <= QUARTER_PI_RAW {
        (spec_cos_poly(x), spec_sin_poly(x))
    } else {
        let c = Fixed(HALF_PI_RAW).sub(x);
        (spec_sin_poly(c), spec_cos_poly(c))
    }
}

#[verifier::when_used_as_spec(spec_quarter_cos_sin)]
fn quarter_cos_sin(x: Fixed) -> (r: (Fixed, Fixed))
    ensures
        r == spec_quarter_cos_sin(x),
{
    if x.0 <= QUARTER_PI_RAW {
        (cos_poly(x), sin_poly(x))
    } else {
        let c = Fixed(HALF_PI_RAW).sub(x);
        (sin_poly(c), cos_poly(c))
    }
}

impl AngleRad {
    /// An angle lies in `[0, 2π)`.
    pub open spec fn wf(self) -> bool {
        0 <= self.0.0 < TAU_RAW
    }

    pub open spec fn spec_new(v: Fixed) -> AngleRad {
        AngleRad(Fixed((v.0 as int % TAU_RAW as int) as i64))
    }

    /// `v` brought into `[0, 2π)` by whole turns.
    #[verifier::when_used_as_spec(spec_new)]
    pub fn new(v: Fixed) -> (r: AngleRad)
        ensures
            r == AngleRad::spec_new(v),
            r.wf(),
    {
        let m: i64 = v.0 % 6_283_185;
        if m < 0 {
            AngleRad(Fixed(m + 6_283_185))
        } else {
            AngleRad(Fixed(m))
        }
    }

    pub open spec fn spec_advance(self, delta: Fixed) -> AngleRad {
        AngleRad::new(self.0.add(delta))
    }

    /// The angle turned by `delta`.
    #[verifier::when_used_as_spec(spec_advance)]
    pub fn advance(self, delta: Fixed) -> (r: AngleRad)
        ensures
            r == self.spec_advance(delta),
            r.wf(),
    {
        AngleRad::new(self.0.add(delta))
    }

    /// The direction before it is brought to unit length: the series values
    /// of cosine and sine, with the signs of the angle's quarter.
    #[verifier::opaque]
    pub open spec fn spec_cos_sin(self) -> Vec2 {
        let t = self.0;
        if t.0 <= HALF_PI_RAW {
            let (c, s) = spec_quarter_cos_sin(t);
            Vec2 { x: c, y: s }
        } else if t.0 <= PI_RAW {
            let (c, s) = spec_quarter_cos_sin(Fixed(PI_RAW).sub(t));
            Vec2 { x: c.neg(), y: s }
        } else if t.0 <= PI_RAW + HALF_PI_RAW {
            let (c, s) = spec_quarter_cos_sin(t.sub(Fixed(PI_RAW)));
            Vec2 { x: c.neg(), y: s.neg() }
        } else {
            let (c, s) = spec_quarter_cos_sin(Fixed(TAU_RAW).sub(t));
            Vec2 { x: c, y: s.neg() }
        }
    }

    pub open spec fn spec_direction(self) -> Vec2 {
        self.spec_cos_sin().normalize_or_zero()
    }

    /// The unit vector at this angle: `(cos, sin)`, each from its power
    /// series on an eighth of a turn, then brought to length at most 1.
    #[verifier::when_used_as_spec(spec_direction)]
    pub fn direction(self) -> (r: Vec2)
        ensures
            r == self.spec_direction(),
            r.norm_sq() <= SCALE * SCALE,
    {
        proof {
            reveal(AngleRad::spec_cos_sin);
        }
        let t = self.0;
        let raw = if t.0 <= HALF_PI_RAW {
            let (c, s) = quarter_cos_sin(t);
            Vec2 { x: c, y: s }
        } else if t.0 <= PI_RAW {
            let (c, s) = quarter_cos_sin(Fixed(PI_RAW).sub(t));
            Vec2 { x: c.neg(), y: s }
        } else if t.0 <= PI_RAW + HALF_PI_RAW {
            let (c, s) = quarter_cos_sin(t.sub(Fixed(PI_RAW)));
            Vec2 { x: c.neg(), y: s.neg() }
        } else {
            let (c, s) = quarter_cos_sin(Fixed(TAU_RAW).sub(t));
            Vec2 { x: c, y: s.neg() }
        };
        raw.normalize_or_zero()
    }

    /// The cosine of this angle, from the same series as `direction`, held
    /// within `[-1, 1]`.
    pub open spec fn spec_cos(self) -> Fixed {
        self.spec_cos_sin().x.clamp(Fixed::one().neg(), Fixed::one())
    }

    /// The cosine of this angle.
    #[verifier::when_used_as_spec(spec_cos)]
    pub fn cos(self) -> (r: Fixed)
        ensures
            r == self.spec_cos(),
            -SCALE <= r.0 <= SCALE,
    {
        proof {
            reveal(AngleRad::spec_cos_sin);
        }
        let t = self.0;
        let c = if t.0 <= HALF_PI_RAW {
            quarter_cos_sin(t).0
        } else if t.0 <= PI_RAW {
            quarter_cos_sin(Fixed(PI_RAW).sub(t)).0.neg()
        } else if t.0 <= PI_RAW + HALF_PI_RAW {
            quarter_cos_sin(t.sub(Fixed(PI_RAW))).0.neg()
        } else {
            quarter_cos_sin(Fixed(TAU_RAW).sub(t)).0
        };
        c.clamp(Fixed::one().neg(), Fixed::one())
    }
}

impl Default for AngleRad {
    /// Facing along the x axis.
    fn default() -> (r: AngleRad)
        ensures
            r == AngleRad(Fixed(0)),
    {
        AngleRad(Fixed(0))
    }
}

/// Discrete tick counter of the fixed-timestep simulation.
#[derive(Debug, Clone, Copy, PartialEq, Eq, Structural, PartialOrd, Ord, Hash)]
pub struct Tick(pub u64);

impl Tick {
    /// The tick that follows this one.
    pub fn next(self) -> (r: Tick)
        requires
            self.0 < u64::MAX,
        ensures
            r.0 == self.0 + 1,
    {
        Tick(self.0 + 1)
    }
}

impl Default for Tick {
    fn default() -> (r: Tick)
        ensures
            r == Tick(0),
    {
        Tick(0)
    }
}

/// The four places a part can be fitted.
#[derive(Debug, Clone, Copy, PartialEq, Eq, Structural, Hash)]
pub enum PartSlot {
    WeaponWheel,
    Shaft,
    Chassis,
    TraitScrew,
}

/// How a ranged weapon picks its direction.
#[derive(Debug, Clone, Copy, PartialEq, Eq, Structural, Hash)]
pub enum AimMode {
    FollowSpin,
    SeekNearestTarget,
}

/// The two families of weapon.
#[derive(Debug, Clone, Copy, PartialEq, Eq, Structural, Hash)]
pub enum WeaponKind {
    Melee,
    Ranged,
}

/// A control effect: a timed stun or slow, or an instantaneous knockback.
#[derive(Debug, Clone, Copy, PartialEq, Eq, Structural, Hash)]
pub enum ControlEffect {
    Stun { duration: Seconds },
    Slow { duration: Seconds, ratio: Fixed },
    Knockback { distance: Fixed },
}

impl ControlEffect {
    /// Whether the effect is one the simulation accepts: durations are not
    /// negative and a slow takes away a share between none and all.
    pub open spec fn wf(self) -> bool {
        match self {
            ControlEffect::Stun { duration } => duration.wf(),
            ControlEffect::Slow { duration, ratio } => duration.wf() && 0 <= ratio.0 <= SCALE,
            ControlEffect::Knockback { distance } => true,
        }
    }

    pub open spec fn spec_apply_reduction(self, m: Fixed) -> ControlEffect {
        let m = m.max(Fixed::zero());
        match self {
            ControlEffect::Stun { duration } => ControlEffect::Stun {
                duration: Seconds::new(duration.0.mul(m)),
            },
            ControlEffect::Slow { duration, ratio } => ControlEffect::Slow {
                duration: Seconds::new(duration.0.mul(m)),
                ratio,
            },
            ControlEffect::Knockback { distance } => ControlEffect::Knockback {
                distance: distance.mul(m),
            },
        }
    }

    /// The effect as a target with control multiplier `m` feels it: durations
    /// and distance are multiplied by `m` (a negative `m` counts as 0); a
    /// slow keeps its ratio.
    #[verifier::when_used_as_spec(spec_apply_reduction)]
    pub fn apply_reduction(self, m: Fixed) -> (r: ControlEffect)
        ensures
            r == self.spec_apply_reduction(m),
    {
        let m = m.max(Fixed::zero());
        match self {
            ControlEffect::Stun { duration } => ControlEffect::Stun {
                duration: Seconds::new(duration.0.mul(m)),
            },
            ControlEffect::Slow { duration, ratio } => ControlEffect::Slow {
                duration: Seconds::new(duration.0.mul(m)),
                ratio,
            },
            ControlEffect::Knockback { distance } => ControlEffect::Knockback {
                distance: distance.mul(m),
            },
        }
    }
}

/// Where damage came from.
#[derive(Debug, Clone, Copy, PartialEq, Eq, Structural, Hash)]
pub enum DamageKind {
    Collision,
    Melee,
    Projectile,
    Wall,
    Obstacle,
}

/// What touching an obstacle does.
#[derive(Debug, Clone, Copy, PartialEq, Eq, Structural, Hash)]
pub enum CollisionBehavior {
    Solid,
    DamageOnHit,
    ApplyControlOnHit,
}

} // verus!
