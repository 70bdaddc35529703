//! Stat modifiers contributed by parts, and the resolver that folds them
//! into effective stats.

use vstd::prelude::*;
use crate::config::tuning::Tuning;
use crate::fixed::Fixed;
use super::base::BaseStats;
use super::effective::EffectiveStats;
use super::types::{MetersPerSec, Multiplier, Radius, SpinHp};

verus! {

/// One stat's modifier: add, then multiply, then clamp.
#[derive(Debug, Clone, Copy, PartialEq, Eq, Structural)]
pub struct StatModifier {
    pub add: Fixed,
    pub mul: Fixed,
    pub clamp_min: Option<Fixed>,
    pub clamp_max: Option<Fixed>,
}

impl StatModifier {
    pub open spec fn spec_identity() -> StatModifier {
        StatModifier { add: Fixed::zero(), mul: Fixed::one(), clamp_min: None, clamp_max: None }
    }

    /// The modifier that changes nothing.
    #[verifier::when_used_as_spec(spec_identity)]
    pub fn identity() -> (r: StatModifier)
        ensures
            r == StatModifier::spec_identity(),
    {
        StatModifier { add: Fixed::zero(), mul: Fixed::one(), clamp_min: None, clamp_max: None }
    }

    pub open spec fn spec_apply(&self, base: Fixed) -> Fixed {
        let v = base.add(self.add).mul(self.mul);
        let v = match self.clamp_min {
            Some(min) => v.max(min),
            None => v,
        };
        match self.clamp_max {
            Some(max) => v.min(max),
            None => v,
        }
    }

    /// `(base + add) * mul`, raised to `clamp_min` and then lowered to
    /// `clamp_max` where they are set.
    #[verifier::when_used_as_spec(spec_apply)]
    pub fn apply(&self, base: Fixed) -> (r: Fixed)
        ensures
            r == self.spec_apply(base),
    {
        let v = base.add(self.add).mul(self.mul);
        let v = match self.clamp_min {
            Some(min) => v.max(min),
            None => v,
        };
        match self.clamp_max {
            Some(max) => v.min(max),
            None => v,
        }
    }

    /// Additions summed, factors multiplied, the clamps of `self` kept.
    pub open spec fn spec_stack(self, other: StatModifier) -> StatModifier {
        StatModifier { add: self.add.add(other.add), mul: self.mul.mul(other.mul), ..self }
    }

    /// The modifier that does what `self` and `other` ask for together.
    #[verifier::when_used_as_spec(spec_stack)]
    pub fn stack(self, other: StatModifier) -> (r: StatModifier)
        ensures
            r == self.spec_stack(other),
    {
        StatModifier {
            add: self.add.add(other.add),
            mul: self.mul.mul(other.mul),
            clamp_min: self.clamp_min,
            clamp_max: self.clamp_max,
        }
    }
}

impl StatModifier {
    /// The modifier with every field zero. It multiplies by 0: the
    /// modifier that changes nothing is [`StatModifier::identity`].
    pub open spec fn zeroed() -> StatModifier {
        StatModifier { add: Fixed(0), mul: Fixed(0), clamp_min: None, clamp_max: None }
    }
}

impl Default for StatModifier {
    /// The modifier with every field zero.
    fn default() -> (r: StatModifier)
        ensures
            r == StatModifier::zeroed(),
    {
        StatModifier { add: Fixed(0), mul: Fixed(0), clamp_min: None, clamp_max: None }
    }
}

/// The modifiers of one part, or of several merged, for every stat.
#[derive(Debug, Clone)]
pub struct ModifierSet {
    pub spin_hp_max: StatModifier,
    pub radius: StatModifier,
    pub move_speed: StatModifier,
    pub accel: StatModifier,
    /// One ratio per source of control reduction; they stack by product.
    pub control_reduction_sources: Vec<Fixed>,
    pub stability: StatModifier,
    pub spin_efficiency: StatModifier,
    pub damage_out_mult: Multiplier,
    pub damage_in_mult: Multiplier,
    pub fire_rate_mult: Multiplier,
}

/// The mathematical content of a [`ModifierSet`].
pub struct ModifierSetModel {
    pub spin_hp_max: StatModifier,
    pub radius: StatModifier,
    pub move_speed: StatModifier,
    pub accel: StatModifier,
    pub control_reduction_sources: Seq<Fixed>,
    pub stability: StatModifier,
    pub spin_efficiency: StatModifier,
    pub damage_out_mult: Multiplier,
    pub damage_in_mult: Multiplier,
    pub fire_rate_mult: Multiplier,
}

impl View for ModifierSet {
    type V = ModifierSetModel;

    open spec fn view(&self) -> ModifierSetModel {
        ModifierSetModel {
            spin_hp_max: self.spin_hp_max,
            radius: self.radius,
            move_speed: self.move_speed,
            accel: self.accel,
            control_reduction_sources: self.control_reduction_sources@,
            stability: self.stability,
            spin_efficiency: self.spin_efficiency,
            damage_out_mult: self.damage_out_mult,
            damage_in_mult: self.damage_in_mult,
            fire_rate_mult: self.fire_rate_mult,
        }
    }
}

/// The product of `1 + r` over the control reduction ratios `r`, taken from
/// the first to the last.
pub open spec fn stacked_ratio(sources: Seq<Fixed>) -> Fixed
    decreases sources.len(),
{
    if sources.len() == 0 {
        Fixed::one()
    } else {
        stacked_ratio(sources.drop_last()).mul(Fixed::one().add(sources.last()))
    }
}

/// The control duration multiplier for reduction ratios `sources` and the
/// top's own `base_reduction`: `max(0, 1 - R)` with
/// `R = Π(1 + r) × (1 + base_reduction) - 1`.
pub open spec fn control_multiplier(sources: Seq<Fixed>, base_reduction: Fixed) -> Fixed {
    let combined = stacked_ratio(sources).mul(Fixed::one().add(base_reduction));
    let big_r = combined.sub(Fixed::one());
    Fixed::one().sub(big_r).max(Fixed::zero())
}

impl ModifierSetModel {
    /// The set that changes nothing.
    pub open spec fn identity() -> ModifierSetModel {
        ModifierSetModel {
            spin_hp_max: StatModifier::identity(),
            radius: StatModifier::identity(),
            move_speed: StatModifier::identity(),
            accel: StatModifier::identity(),
            control_reduction_sources: Seq::empty(),
            stability: StatModifier::identity(),
            spin_efficiency: StatModifier::identity(),
            damage_out_mult: Multiplier::one(),
            damage_in_mult: Multiplier::one(),
            fire_rate_mult: Multiplier::one(),
        }
    }

    /// `self` with `other` merged in: additions summed, factors multiplied,
    /// multipliers multiplied and clamped, reduction sources appended.
    pub open spec fn merge(self, other: ModifierSetModel) -> ModifierSetModel {
        ModifierSetModel {
            spin_hp_max: self.spin_hp_max.stack(other.spin_hp_max),
            radius: self.radius.stack(other.radius),
            move_speed: self.move_speed.stack(other.move_speed),
            accel: self.accel.stack(other.accel),
            control_reduction_sources: self.control_reduction_sources
                + other.control_reduction_sources,
            stability: self.stability.stack(other.stability),
            spin_efficiency: self.spin_efficiency.stack(other.spin_efficiency),
            damage_out_mult: self.damage_out_mult.combine(other.damage_out_mult),
            damage_in_mult: self.damage_in_mult.combine(other.damage_in_mult),
            fire_rate_mult: self.fire_rate_mult.combine(other.fire_rate_mult),
        }
    }

    /// The effective stats of a top with base stats `base` under this set.
    pub open spec fn compute_effective(self, base: BaseStats, tuning: Tuning) -> EffectiveStats {
        let spin_efficiency = self.spin_efficiency.apply(Fixed::one()).clamp(
            Fixed::zero(),
            Fixed(10_000_000),
        );
        EffectiveStats {
            spin_hp_max: SpinHp(self.spin_hp_max.apply(base.spin_hp_max.0).max(Fixed::zero())),
            radius: Radius(self.radius.apply(base.radius.0).max(Fixed(10_000))),
            move_speed: MetersPerSec(
                self.move_speed.apply(base.move_speed.0).min(tuning.max_speed).max(Fixed::zero()),
            ),
            accel: self.accel.apply(base.accel).max(Fixed::zero()),
            control_multiplier: control_multiplier(
                self.control_reduction_sources,
                base.control_reduction,
            ),
            spin_drain_idle_per_sec: tuning.spin_drain_idle_per_sec.div(spin_efficiency),
            spin_drain_on_wall_hit: tuning.spin_drain_on_wall_hit,
            spin_drain_on_top_hit: tuning.spin_drain_on_top_hit,
            stability: self.stability.apply(Fixed::zero()).max(Fixed::zero()),
            damage_out_mult: Multiplier::new(self.damage_out_mult.0),
            damage_in_mult: Multiplier::new(self.damage_in_mult.0),
            fire_rate_mult: Multiplier::new(self.fire_rate_mult.0),
        }
    }
}

impl Default for ModifierSet {
    /// The set of default fields: every stat modifier zero, no control
    /// reduction, every multiplier 1. It multiplies stats by 0: the set
    /// that changes nothing is [`ModifierSet::new`].
    fn default() -> (r: ModifierSet)
        ensures
            r@ == (ModifierSetModel {
                spin_hp_max: StatModifier::zeroed(),
                radius: StatModifier::zeroed(),
                move_speed: StatModifier::zeroed(),
                accel: StatModifier::zeroed(),
                control_reduction_sources: Seq::empty(),
                stability: StatModifier::zeroed(),
                spin_efficiency: StatModifier::zeroed(),
                damage_out_mult: Multiplier::one(),
                damage_in_mult: Multiplier::one(),
                fire_rate_mult: Multiplier::one(),
            }),
    {
        ModifierSet {
            spin_hp_max: StatModifier::default(),
            radius: StatModifier::default(),
            move_speed: StatModifier::default(),
            accel: StatModifier::default(),
            control_reduction_sources: Vec::new(),
            stability: StatModifier::default(),
            spin_efficiency: StatModifier::default(),
            damage_out_mult: Multiplier::default(),
            damage_in_mult: Multiplier::default(),
            fire_rate_mult: Multiplier::default(),
        }
    }
}

impl ModifierSet {
    /// The set that changes nothing.
    pub fn new() -> (r: ModifierSet)
        ensures
            r@ == ModifierSetModel::identity(),
    {
        ModifierSet {
            spin_hp_max: StatModifier::identity(),
            radius: StatModifier::identity(),
            move_speed: StatModifier::identity(),
            accel: StatModifier::identity(),
            control_reduction_sources: Vec::new(),
            stability: StatModifier::identity(),
            spin_efficiency: StatModifier::identity(),
            damage_out_mult: Multiplier::one(),
            damage_in_mult: Multiplier::one(),
            fire_rate_mult: Multiplier::one(),
        }
    }

    /// Merges another set into this one.
    pub fn merge(&mut self, other: &ModifierSet)
        ensures
            final(self)@ == old(self)@.merge(other@),
    {
        self.spin_hp_max = self.spin_hp_max.stack(other.spin_hp_max);
        self.radius = self.radius.stack(other.radius);
        self.move_speed = self.move_speed.stack(other.move_speed);
        self.accel = self.accel.stack(other.accel);
        let n = other.control_reduction_sources.len();
        let mut i: usize = 0;
        while i < n
            invariant
                i <= n,
                n == other.control_reduction_sources.len(),
                self.control_reduction_sources@ == old(self).control_reduction_sources@
                    + other.control_reduction_sources@.take(i as int),
                self.spin_hp_max == old(self).spin_hp_max.stack(other.spin_hp_max),
                self.radius == old(self).radius.stack(other.radius),
                self.move_speed == old(self).move_speed.stack(other.move_speed),
                self.accel == old(self).accel.stack(other.accel),
                self.stability == old(self).stability,
                self.spin_efficiency == old(self).spin_efficiency,
                self.damage_out_mult == old(self).damage_out_mult,
                self.damage_in_mult == old(self).damage_in_mult,
                self.fire_rate_mult == old(self).fire_rate_mult,
            decreases n - i,
        {
            self.control_reduction_sources.push(other.control_reduction_sources[i]);
            i += 1;
        }
        assert(other.control_reduction_sources@.take(n as int)
            == other.control_reduction_sources@);
        self.stability = self.stability.stack(other.stability);
        self.spin_efficiency = self.spin_efficiency.stack(other.spin_efficiency);
        self.damage_out_mult = self.damage_out_mult.combine(other.damage_out_mult);
        self.damage_in_mult = self.damage_in_mult.combine(other.damage_in_mult);
        self.fire_rate_mult = self.fire_rate_mult.combine(other.fire_rate_mult);
    }

    /// Resolves the effective stats of a top: each base field goes through
    /// its modifier and is then clamped (spin at least 0, radius at least
    /// 0.01, speed within `[0, tuning.max_speed]`); control reduction stacks
    /// by product; the idle drain is the tuning's rate divided by the spin
    /// efficiency.
    pub fn compute_effective(&self, base: &BaseStats, tuning: &Tuning) -> (r: EffectiveStats)
        ensures
            r == self@.compute_effective(*base, *tuning),
            tuning.wf() ==> r.wf(),
            tuning.max_speed.0 >= 0 ==> r.move_speed.0.0 <= tuning.max_speed.0,
    {
        let spin_hp_max = self.spin_hp_max.apply(base.spin_hp_max.0).max(Fixed::zero());
        let radius = self.radius.apply(base.radius.0).max(Fixed(10_000));
        let move_speed = self.move_speed.apply(base.move_speed.0).min(tuning.max_speed).max(
            Fixed::zero(),
        );

        let mut combined = Fixed::one();
        let n = self.control_reduction_sources.len();
        let mut i: usize = 0;
        while i < n
            invariant
                i <= n,
                n == self.control_reduction_sources.len(),
                combined == stacked_ratio(self.control_reduction_sources@.take(i as int)),
            decreases n - i,
        {
            proof {
                let s = self.control_reduction_sources@;
                assert(s.take(i as int + 1).drop_last() == s.take(i as int));
            }
            combined = combined.mul(Fixed::one().add(self.control_reduction_sources[i]));
            i += 1;
        }
        assert(self.control_reduction_sources@.take(n as int) == self.control_reduction_sources@);
        combined = combined.mul(Fixed::one().add(base.control_reduction));
        let big_r = combined.sub(Fixed::one());
        let control_multiplier = Fixed::one().sub(big_r).max(Fixed::zero());

        let accel = self.accel.apply(base.accel).max(Fixed::zero());
        let stability = self.stability.apply(Fixed::zero()).max(Fixed::zero());
        let spin_efficiency = self.spin_efficiency.apply(Fixed::one()).clamp(
            Fixed::zero(),
            Fixed(10_000_000),
        );

        EffectiveStats {
            spin_hp_max: SpinHp(spin_hp_max),
            radius: Radius(radius),
            move_speed: MetersPerSec(move_speed),
            accel,
            control_multiplier,
            spin_drain_idle_per_sec: tuning.spin_drain_idle_per_sec.div(spin_efficiency),
            spin_drain_on_wall_hit: tuning.spin_drain_on_wall_hit,
            spin_drain_on_top_hit: tuning.spin_drain_on_top_hit,
            stability,
            damage_out_mult: Multiplier::new(self.damage_out_mult.0),
            damage_in_mult: Multiplier::new(self.damage_in_mult.0),
            fire_rate_mult: Multiplier::new(self.fire_rate_mult.0),
        }
    }
}

} // verus!
