//! The physics integrator: intent, movement, rotation, spin drain and the
//! timers that run every tick.

use vstd::prelude::*;
use crate::components::{ticked_cooldowns, ticked_effects, MeleeHitTracker, StatusEffects};
use crate::config::tuning::Tuning;
use crate::entity::{ProjectileEntity, TopEntity};
use crate::fixed::{lemma_mul_by_share, lemma_mul_nonneg, lemma_square_le, Fixed};

verus! {

/// Whether two tables hold the same tops in the same places, by identity.
pub open spec fn same_ids(a: Seq<TopEntity>, b: Seq<TopEntity>) -> bool {
    a.len() == b.len() && forall|i: int| 0 <= i < a.len() ==> (#[trigger] a[i]).id == b[i].id
}

/// Whether every top in the table is well-formed.
pub open spec fn tops_wf(tops: Seq<TopEntity>) -> bool {
    forall|i: int| 0 <= i < tops.len() ==> (#[trigger] tops[i]).wf()
}

impl TopEntity {
    pub open spec fn spec_speed_factor(self) -> Fixed {
        if self.control.is_slowed() {
            Fixed::one().sub(self.control.slow_ratio)
        } else {
            Fixed::one()
        }
    }

    /// The share of its acceleration and top speed the top has left: 1, or
    /// 1 less the slow ratio while a slow runs.
    #[verifier::when_used_as_spec(spec_speed_factor)]
    pub fn speed_factor(self) -> (r: Fixed)
        ensures
            r == self.spec_speed_factor(),
            0 <= self.control.slow_ratio.0 <= crate::fixed::SCALE ==> 0 <= r.0
                <= crate::fixed::SCALE,
    {
        if self.control.is_slowed() {
            Fixed::one().sub(self.control.slow_ratio)
        } else {
            Fixed::one()
        }
    }

    pub open spec fn spec_with_intent(self, dt: Fixed) -> TopEntity {
        if self.control.is_stunned() {
            self
        } else {
            let f = self.speed_factor();
            let pushed = if self.intent.move_dir.is_zero() {
                self.velocity
            } else {
                self.velocity.add(
                    self.intent.move_dir.normalize_or_zero().scale(
                        self.stats.accel.mul(f).mul(dt),
                    ),
                )
            };
            TopEntity {
                velocity: pushed.clamp_length(self.stats.move_speed.0.mul(f)),
                ..self
            }
        }
    }

    /// The top after its movement intent has acted for `dt` seconds. A
    /// stunned top is unchanged. Otherwise an intent with a direction adds
    /// `direction × accel × dt` to the velocity, and the speed is then
    /// clamped to the top's move speed; a running slow scales both the
    /// acceleration and the speed limit by `1 - slow_ratio`.
    #[verifier::when_used_as_spec(spec_with_intent)]
    pub fn with_intent(self, dt: Fixed) -> (r: TopEntity)
        ensures
            r == self.spec_with_intent(dt),
            self.wf() ==> r.wf(),
            r.id == self.id,
            r.position == self.position,
            r.spin_hp == self.spin_hp,
    {
        if self.control.is_stunned() {
            return self;
        }
        let f = self.speed_factor();
        let pushed = if self.intent.move_dir.is_zero() {
            self.velocity
        } else {
            self.velocity.add(
                self.intent.move_dir.normalize_or_zero().scale(self.stats.accel.mul(f).mul(dt)),
            )
        };
        let limit = self.stats.move_speed.0.mul(f);
        let velocity = pushed.clamp_length(limit);
        proof {
            if self.wf() {
                lemma_mul_by_share(self.stats.move_speed.0, f);
                lemma_square_le(limit.0 as int, self.stats.move_speed.0.0 as int);
            }
        }
        TopEntity { velocity, ..self }
    }

    pub open spec fn spec_integrated(self, tuning: &Tuning) -> TopEntity {
        let v = self.velocity.scale(self.speed_boost.multiplier);
        let turn = v.length().mul(tuning.spin_visual_k).mul(self.weapon_spin).mul(tuning.dt);
        TopEntity {
            position: self.position.add(v.scale(tuning.dt)),
            rotation: self.rotation.advance(turn),
            ..self
        }
    }

    /// The top after one tick of movement. The velocity, multiplied by
    /// the zone speed boost, is what moves the top: the position advances
    /// by it times `dt`, and the facing turns by its length times the visual
    /// spin constant, the weapon's spin multiplier and `dt`.
    #[verifier::when_used_as_spec(spec_integrated)]
    pub fn integrated(self, tuning: &Tuning) -> (r: TopEntity)
        ensures
            r == self.spec_integrated(tuning),
            self.wf() ==> r.wf(),
            r.id == self.id,
            r.velocity == self.velocity,
            r.spin_hp == self.spin_hp,
    {
        let v = self.velocity.scale(self.speed_boost.multiplier);
        let turn = v.length().mul(tuning.spin_visual_k).mul(self.weapon_spin).mul(tuning.dt);
        TopEntity {
            position: self.position.add(v.scale(tuning.dt)),
            rotation: self.rotation.advance(turn),
            ..self
        }
    }

    pub open spec fn spec_drained(self, dt: Fixed) -> TopEntity {
        TopEntity {
            spin_hp: self.spin_hp.sub_clamped(self.stats.spin_drain_idle_per_sec.mul(dt)),
            ..self
        }
    }

    /// The top after `dt` seconds of idle spin drain.
    #[verifier::when_used_as_spec(spec_drained)]
    pub fn drained(self, dt: Fixed) -> (r: TopEntity)
        ensures
            r == self.spec_drained(dt),
            r.id == self.id,
            self.wf() && dt.0 >= 0 ==> r.wf() && r.spin_hp.0.0 <= self.spin_hp.0.0,
    {
        proof {
            if self.wf() && dt.0 >= 0 {
                lemma_mul_nonneg(self.stats.spin_drain_idle_per_sec, dt);
            }
        }
        TopEntity {
            spin_hp: self.spin_hp.sub_clamped(self.stats.spin_drain_idle_per_sec.mul(dt)),
            ..self
        }
    }

    pub open spec fn spec_control_ticked(self, dt: Fixed) -> TopEntity {
        TopEntity { control: self.control.ticked(dt), ..self }
    }

    /// The top with its control timers run down by `dt`.
    #[verifier::when_used_as_spec(spec_control_ticked)]
    pub fn control_ticked(self, dt: Fixed) -> (r: TopEntity)
        ensures
            r == self.spec_control_ticked(dt),
            self.wf() ==> r.wf(),
            r.id == self.id,
    {
        let mut control = self.control;
        control.tick(dt);
        TopEntity { control, ..self }
    }
}

impl ProjectileEntity {
    pub open spec fn spec_integrated(self, dt: Fixed) -> ProjectileEntity {
        ProjectileEntity {
            position: self.position.add(self.velocity.scale(dt)),
            lifetime: self.lifetime.dec(dt),
            ..self
        }
    }

    /// The projectile after `dt` seconds: moved in a straight line, its
    /// lifetime run down.
    #[verifier::when_used_as_spec(spec_integrated)]
    pub fn integrated(self, dt: Fixed) -> (r: ProjectileEntity)
        ensures
            r == self.spec_integrated(dt),
    {
        ProjectileEntity {
            position: self.position.add(self.velocity.scale(dt)),
            lifetime: self.lifetime.dec(dt),
            ..self
        }
    }
}

/// Applies every top's movement intent for one tick.
pub fn apply_intent(tuning: &Tuning, tops: &mut Vec<TopEntity>)
    ensures
        final(tops)@.len() == old(tops)@.len(),
        forall|i: int|
            0 <= i < old(tops)@.len() ==> (#[trigger] final(tops)@[i]) == old(tops)@[i].with_intent(
                tuning.dt,
            ),
        tops_wf(old(tops)@) ==> tops_wf(final(tops)@),
        same_ids(old(tops)@, final(tops)@),
{
    let n = tops.len();
    let mut i: usize = 0;
    while i < n
        invariant
            i <= n,
            n == tops.len(),
            n == old(tops)@.len(),
            forall|j: int|
                0 <= j < i ==> (#[trigger] tops@[j]) == old(tops)@[j].with_intent(tuning.dt),
            forall|j: int| i <= j < n ==> (#[trigger] tops@[j]) == old(tops)@[j],
            tops_wf(old(tops)@) ==> tops_wf(tops@),
            same_ids(old(tops)@, tops@),
        decreases n - i,
    {
        let t = tops[i].with_intent(tuning.dt);
        tops.set(i, t);
        i += 1;
    }
}

/// Moves and turns every top for one tick.
pub fn integrate_physics(tuning: &Tuning, tops: &mut Vec<TopEntity>)
    ensures
        final(tops)@.len() == old(tops)@.len(),
        forall|i: int|
            0 <= i < old(tops)@.len() ==> (#[trigger] final(tops)@[i]) == old(tops)@[i].integrated(
                tuning,
            ),
        tops_wf(old(tops)@) ==> tops_wf(final(tops)@),
        same_ids(old(tops)@, final(tops)@),
{
    let n = tops.len();
    let mut i: usize = 0;
    while i < n
        invariant
            i <= n,
            n == tops.len(),
            n == old(tops)@.len(),
            forall|j: int|
                0 <= j < i ==> (#[trigger] tops@[j]) == old(tops)@[j].integrated(tuning),
            forall|j: int| i <= j < n ==> (#[trigger] tops@[j]) == old(tops)@[j],
            tops_wf(old(tops)@) ==> tops_wf(tops@),
            same_ids(old(tops)@, tops@),
        decreases n - i,
    {
        let t = tops[i].integrated(tuning);
        tops.set(i, t);
        i += 1;
    }
}

/// Moves every projectile for one tick and runs its lifetime down.
pub fn integrate_projectiles(tuning: &Tuning, projectiles: &mut Vec<ProjectileEntity>)
    ensures
        final(projectiles)@.len() == old(projectiles)@.len(),
        forall|i: int|
            0 <= i < old(projectiles)@.len() ==> (#[trigger] final(projectiles)@[i]) == old(
                projectiles,
            )@[i].integrated(tuning.dt),
{
    let n = projectiles.len();
    let mut i: usize = 0;
    while i < n
        invariant
            i <= n,
            n == projectiles.len(),
            n == old(projectiles)@.len(),
            forall|j: int|
                0 <= j < i ==> (#[trigger] projectiles@[j]) == old(projectiles)@[j].integrated(
                    tuning.dt,
                ),
            forall|j: int| i <= j < n ==> (#[trigger] projectiles@[j]) == old(projectiles)@[j],
        decreases n - i,
    {
        let p = projectiles[i].integrated(tuning.dt);
        projectiles.set(i, p);
        i += 1;
    }
}

/// Drains every top's spin for one idle tick.
pub fn spin_drain(tuning: &Tuning, tops: &mut Vec<TopEntity>)
    ensures
        final(tops)@.len() == old(tops)@.len(),
        forall|i: int|
            0 <= i < old(tops)@.len() ==> (#[trigger] final(tops)@[i]) == old(tops)@[i].drained(
                tuning.dt,
            ),
        tuning.wf() && tops_wf(old(tops)@) ==> tops_wf(final(tops)@),
        same_ids(old(tops)@, final(tops)@),
{
    let n = tops.len();
    let mut i: usize = 0;
    while i < n
        invariant
            i <= n,
            n == tops.len(),
            n == old(tops)@.len(),
            forall|j: int| 0 <= j < i ==> (#[trigger] tops@[j]) == old(tops)@[j].drained(tuning.dt),
            forall|j: int| i <= j < n ==> (#[trigger] tops@[j]) == old(tops)@[j],
            tuning.wf() && tops_wf(old(tops)@) ==> tops_wf(tops@),
            same_ids(old(tops)@, tops@),
        decreases n - i,
    {
        let t = tops[i].drained(tuning.dt);
        tops.set(i, t);
        i += 1;
    }
}

/// Runs every top's control timers down by one tick.
pub fn tick_control_state(tuning: &Tuning, tops: &mut Vec<TopEntity>)
    ensures
        final(tops)@.len() == old(tops)@.len(),
        forall|i: int|
            0 <= i < old(tops)@.len() ==> (#[trigger] final(tops)@[i]) == old(
                tops,
            )@[i].control_ticked(tuning.dt),
        tops_wf(old(tops)@) ==> tops_wf(final(tops)@),
        same_ids(old(tops)@, final(tops)@),
{
    let n = tops.len();
    let mut i: usize = 0;
    while i < n
        invariant
            i <= n,
            n == tops.len(),
            n == old(tops)@.len(),
            forall|j: int|
                0 <= j < i ==> (#[trigger] tops@[j]) == old(tops)@[j].control_ticked(tuning.dt),
            forall|j: int| i <= j < n ==> (#[trigger] tops@[j]) == old(tops)@[j],
            tops_wf(old(tops)@) ==> tops_wf(tops@),
            same_ids(old(tops)@, tops@),
        decreases n - i,
    {
        let t = tops[i].control_ticked(tuning.dt);
        tops.set(i, t);
        i += 1;
    }
}

/// Runs every set of status effects down by one tick.
pub fn tick_status_effects(tuning: &Tuning, effects: &mut Vec<StatusEffects>)
    ensures
        final(effects)@.len() == old(effects)@.len(),
        forall|i: int|
            0 <= i < old(effects)@.len() ==> (#[trigger] final(effects)@[i]).effects@
                == ticked_effects(old(effects)@[i].effects@, tuning.dt),
{
    let n = effects.len();
    let mut i: usize = 0;
    while i < n
        invariant
            i <= n,
            n == effects.len(),
            n == old(effects)@.len(),
            forall|j: int|
                0 <= j < i ==> (#[trigger] effects@[j]).effects@ == ticked_effects(
                    old(effects)@[j].effects@,
                    tuning.dt,
                ),
            forall|j: int| i <= j < n ==> (#[trigger] effects@[j]) == old(effects)@[j],
        decreases n - i,
    {
        effects[i].tick(tuning.dt);
        i += 1;
    }
}

/// Runs every melee tracker's cooldowns down by one tick.
pub fn tick_melee_trackers(tuning: &Tuning, trackers: &mut Vec<MeleeHitTracker>)
    ensures
        final(trackers)@.len() == old(trackers)@.len(),
        forall|i: int|
            0 <= i < old(trackers)@.len() ==> (#[trigger] final(trackers)@[i]).cooldowns@
                == ticked_cooldowns(old(trackers)@[i].cooldowns@, tuning.dt),
{
    let n = trackers.len();
    let mut i: usize = 0;
    while i < n
        invariant
            i <= n,
            n == trackers.len(),
            n == old(trackers)@.len(),
            forall|j: int|
                0 <= j < i ==> (#[trigger] trackers@[j]).cooldowns@ == ticked_cooldowns(
                    old(trackers)@[j].cooldowns@,
                    tuning.dt,
                ),
            forall|j: int| i <= j < n ==> (#[trigger] trackers@[j]) == old(trackers)@[j],
        decreases n - i,
    {
        trackers[i].tick(tuning.dt);
        i += 1;
    }
}

} // verus!
