//! Weapons: ranged fire and melee hits. Both only queue events; nothing
//! is applied here.

use vstd::prelude::*;
use crate::components::{
    can_hit_in, tracker_views, HitCooldown, MeleeHitTracker, RangedFireTimer,
};
use crate::config::tuning::Tuning;
use crate::entity::TopEntity;
use crate::events::{events_wf, GameEvent};
use crate::fixed::Fixed;
use crate::parts::weapon_wheel::{MeleeSpec, RangedSpec};
use crate::physics::{same_ids, tops_wf};
use crate::stats::types::{AngleRad, DamageKind, Multiplier, PI_RAW};
use crate::vector::Vec2;

verus! {

/// The slowest a ranged weapon fires, in shots per second, in raw units.
pub const MIN_FIRE_RATE_RAW: i64 = 100_000;

impl RangedSpec {
    pub open spec fn spec_cooldown(self, fire_rate_mult: Multiplier) -> Fixed {
        Fixed::one().div(self.fire_rate.mul(fire_rate_mult.0).max(Fixed(MIN_FIRE_RATE_RAW)))
    }

    /// Seconds between shots for a top with the given fire rate
    /// multiplier: one over the multiplied fire rate, which counts as at
    /// least 0.1 shots per second.
    #[verifier::when_used_as_spec(spec_cooldown)]
    pub fn cooldown(self, fire_rate_mult: Multiplier) -> (r: Fixed)
        ensures
            r == self.spec_cooldown(fire_rate_mult),
    {
        Fixed::one().div(self.fire_rate.mul(fire_rate_mult.0).max(Fixed(MIN_FIRE_RATE_RAW)))
    }

    pub open spec fn spec_is_single_shot(self) -> bool {
        self.burst_count <= 1 && self.spread_angle.0 <= 0
    }

    /// Whether the weapon fires one projectile straight ahead.
    #[verifier::when_used_as_spec(spec_is_single_shot)]
    pub fn is_single_shot(self) -> (r: bool)
        ensures
            r == self.spec_is_single_shot(),
    {
        self.burst_count <= 1 && self.spread_angle.0 <= 0
    }

    pub open spec fn spec_burst_size(self) -> u32 {
        if self.burst_count < 1 {
            1
        } else {
            self.burst_count
        }
    }

    /// Projectiles in one burst: the burst count, and at least 1.
    #[verifier::when_used_as_spec(spec_burst_size)]
    pub fn burst_size(self) -> (r: u32)
        ensures
            r == self.spec_burst_size(),
            r >= 1,
    {
        if self.burst_count < 1 {
            1
        } else {
            self.burst_count
        }
    }

    pub open spec fn spec_shot_angle(self, facing: AngleRad, i: u32) -> AngleRad {
        let count = self.burst_size();
        let step = if count > 1 {
            self.spread_angle.div_int((count - 1) as i64)
        } else {
            Fixed::zero()
        };
        AngleRad::new(facing.0.sub(self.spread_angle.div_int(2)).add(step.mul_int(i as i64)))
    }

    /// The angle of shot `i` of a burst from a weapon facing `facing`. The
    /// shots fan evenly across the spread angle, centred on the facing:
    /// the first is half the spread before it, the last half after.
    #[verifier::when_used_as_spec(spec_shot_angle)]
    pub fn shot_angle(self, facing: AngleRad, i: u32) -> (r: AngleRad)
        ensures
            r == self.spec_shot_angle(facing, i),
            r.wf(),
    {
        let count = self.burst_size();
        let step = if count > 1 {
            self.spread_angle.div_int((count - 1) as i64)
        } else {
            Fixed::zero()
        };
        AngleRad::new(facing.0.sub(self.spread_angle.div_int(2)).add(step.mul_int(i as i64)))
    }
}

impl TopEntity {
    pub open spec fn spec_spawn_event(self, ranged: RangedSpec, direction: Vec2) -> GameEvent {
        GameEvent::SpawnProjectile {
            src: self.id,
            position: self.position.add(direction.scale(self.stats.radius.0)),
            direction,
            speed: ranged.projectile_speed,
            damage: ranged.projectile_damage,
            radius: ranged.projectile_radius,
            lifetime: ranged.lifetime.0,
        }
    }

    /// The event that spawns one projectile of this top's weapon in
    /// `direction`. It starts on the rim of the top.
    #[verifier::when_used_as_spec(spec_spawn_event)]
    pub fn spawn_event(self, ranged: RangedSpec, direction: Vec2) -> (r: GameEvent)
        ensures
            r == self.spec_spawn_event(ranged, direction),
    {
        GameEvent::SpawnProjectile {
            src: self.id,
            position: self.position.add(direction.scale(self.stats.radius.0)),
            direction,
            speed: ranged.projectile_speed,
            damage: ranged.projectile_damage,
            radius: ranged.projectile_radius,
            lifetime: ranged.lifetime.0,
        }
    }

    /// The spawn events of the first `count` shots of a burst.
    pub open spec fn burst_events(self, ranged: RangedSpec, count: int) -> Seq<GameEvent>
        decreases count,
    {
        if count <= 0 {
            Seq::empty()
        } else {
            self.burst_events(ranged, count - 1).push(
                self.spawn_event(
                    ranged,
                    ranged.shot_angle(self.rotation, (count - 1) as u32).direction(),
                ),
            )
        }
    }

    /// The spawn events of one firing: a single shot along the facing, or
    /// a burst.
    pub open spec fn shots(self, ranged: RangedSpec) -> Seq<GameEvent> {
        if ranged.is_single_shot() {
            seq![self.spawn_event(ranged, self.rotation.direction())]
        } else {
            self.burst_events(ranged, ranged.burst_size() as int)
        }
    }

    /// Whether the top's fire timer runs out within `dt`.
    pub open spec fn timer_runs_out(self, dt: Fixed) -> bool {
        self.ranged_timer.0.sub(dt).0 <= 0
    }

    /// The top after `dt` seconds of its fire timer. The timer runs down;
    /// when it runs out on a top with a ranged weapon, it starts again at
    /// the weapon's cooldown.
    pub open spec fn spec_ranged_ticked(self, dt: Fixed) -> TopEntity {
        let left = self.ranged_timer.0.sub(dt);
        TopEntity {
            ranged_timer: RangedFireTimer(
                match self.ranged {
                    Some(r) => if left.0 <= 0 {
                        r.cooldown(self.stats.fire_rate_mult)
                    } else {
                        left
                    },
                    None => left,
                },
            ),
            ..self
        }
    }

    /// The projectiles the top fires within `dt`: those of one firing if
    /// it has a ranged weapon and its timer runs out, else none.
    pub open spec fn spec_ranged_shots(self, dt: Fixed) -> Seq<GameEvent> {
        match self.ranged {
            Some(r) => if self.timer_runs_out(dt) {
                self.shots(r)
            } else {
                Seq::empty()
            },
            None => Seq::empty(),
        }
    }

    /// Runs the fire timer for `dt` seconds and queues the projectiles the
    /// top fires: see [`TopEntity::spec_ranged_ticked`] and
    /// [`TopEntity::spec_ranged_shots`].
    pub fn fire_ranged(self, dt: Fixed, events: &mut Vec<GameEvent>) -> (r: TopEntity)
        ensures
            r == self.spec_ranged_ticked(dt),
            final(events)@ == old(events)@ + self.spec_ranged_shots(dt),
            self.wf() ==> r.wf(),
            r.id == self.id,
            events_wf(old(events)@) ==> events_wf(final(events)@),
    {
        let left = self.ranged_timer.0.sub(dt);
        if left.0 > 0 {
            return TopEntity { ranged_timer: RangedFireTimer(left), ..self };
        }
        match self.ranged {
            None => TopEntity { ranged_timer: RangedFireTimer(left), ..self },
            Some(r) => {
                if r.is_single_shot() {
                    events.push(self.spawn_event(r, self.rotation.direction()));
                } else {
                    let count = r.burst_size();
                    let mut i: u32 = 0;
                    while i < count
                        invariant
                            i <= count,
                            events@ == old(events)@ + self.burst_events(r, i as int),
                            events_wf(old(events)@) ==> events_wf(events@),
                        decreases count - i,
                    {
                        events.push(self.spawn_event(r, r.shot_angle(self.rotation, i).direction()));
                        i += 1;
                    }
                }
                TopEntity {
                    ranged_timer: RangedFireTimer(r.cooldown(self.stats.fire_rate_mult)),
                    ..self
                }
            },
        }
    }
}

/// The projectiles all tops fire within `dt`, top by top.
pub open spec fn ranged_shots(tops: Seq<TopEntity>, dt: Fixed) -> Seq<GameEvent>
    decreases tops.len(),
{
    if tops.len() == 0 {
        Seq::empty()
    } else {
        ranged_shots(tops.drop_last(), dt) + tops.last().spec_ranged_shots(dt)
    }
}

/// Runs every top's fire timer for one tick. A ranged weapon fires by
/// itself whenever its timer runs out.
pub fn fire_ranged_weapons(tuning: &Tuning, tops: &mut Vec<TopEntity>, events: &mut Vec<GameEvent>)
    ensures
        final(tops)@.len() == old(tops)@.len(),
        forall|i: int|
            0 <= i < old(tops)@.len() ==> (#[trigger] final(tops)@[i]) == old(
                tops,
            )@[i].spec_ranged_ticked(tuning.dt),
        final(events)@ == old(events)@ + ranged_shots(old(tops)@, tuning.dt),
        tops_wf(old(tops)@) ==> tops_wf(final(tops)@),
        same_ids(old(tops)@, final(tops)@),
        events_wf(old(events)@) ==> events_wf(final(events)@),
{
    let n = tops.len();
    let mut i: usize = 0;
    while i < n
        invariant
            i <= n,
            n == tops.len(),
            n == old(tops)@.len(),
            forall|j: int|
                0 <= j < i ==> (#[trigger] tops@[j]) == old(tops)@[j].spec_ranged_ticked(tuning.dt),
            forall|j: int| i <= j < n ==> (#[trigger] tops@[j]) == old(tops)@[j],
            events@ == old(events)@ + ranged_shots(old(tops)@.take(i as int), tuning.dt),
            tops_wf(old(tops)@) ==> tops_wf(tops@),
            same_ids(old(tops)@, tops@),
            events_wf(old(events)@) ==> events_wf(events@),
        decreases n - i,
    {
        proof {
            assert(old(tops)@.take(i as int + 1).drop_last() == old(tops)@.take(i as int));
        }
        let t = tops[i].fire_ranged(tuning.dt, events);
        tops.set(i, t);
        i += 1;
    }
    assert(old(tops)@.take(n as int) == old(tops)@);
}

/// Whether a target in direction `target_dir` lies within the facing arc
/// of a weapon pointing along `weapon_dir`: the angle between the two is
/// at most half of `hitbox_angle`. Both are unit vectors, so this holds
/// iff their dot product is at least the cosine of the half angle. A half
/// angle of π or more always holds, a negative one never.
pub open spec fn spec_in_arc(weapon_dir: Vec2, target_dir: Vec2, hitbox_angle: Fixed) -> bool {
    let half = hitbox_angle.div_int(2);
    half.0 >= PI_RAW || (half.0 >= 0 && weapon_dir.dot(target_dir).0 >= AngleRad(half).cos().0)
}

/// Tests a direction against a facing arc: see [`spec_in_arc`].
#[verifier::when_used_as_spec(spec_in_arc)]
pub fn in_arc(weapon_dir: Vec2, target_dir: Vec2, hitbox_angle: Fixed) -> (r: bool)
    ensures
        r == spec_in_arc(weapon_dir, target_dir, hitbox_angle),
{
    let half = hitbox_angle.div_int(2);
    half.0 >= PI_RAW || (half.0 >= 0 && weapon_dir.dot(target_dir).0 >= AngleRad(half).cos().0)
}

impl TopEntity {
    pub open spec fn spec_melee_reaches(self, melee: MeleeSpec, target: TopEntity) -> bool {
        let to_target = target.position.sub(self.position);
        let dist = to_target.length();
        dist.0 <= self.stats.radius.0.add(melee.hitbox_radius).add(target.stats.radius.0).0 && (
        dist.0 > 0 ==> in_arc(
            self.rotation.direction(),
            to_target.normalize_or_zero(),
            melee.hitbox_angle,
        ))
    }

    /// Whether the top's blade reaches `target`: the distance between
    /// the centres is at most the attacker's radius, the hitbox radius
    /// and the target's radius together, and the target lies in the
    /// weapon's facing arc. A target on the very spot is in every arc.
    #[verifier::when_used_as_spec(spec_melee_reaches)]
    pub fn melee_reaches(self, melee: MeleeSpec, target: TopEntity) -> (r: bool)
        ensures
            r == self.spec_melee_reaches(melee, target),
    {
        let to_target = target.position.sub(self.position);
        let dist = to_target.length();
        if dist.0 > self.stats.radius.0.add(melee.hitbox_radius).add(target.stats.radius.0).0 {
            return false;
        }
        if dist.0 > 0 {
            in_arc(self.rotation.direction(), to_target.normalize_or_zero(), melee.hitbox_angle)
        } else {
            true
        }
    }

    pub open spec fn spec_melee_damage(self, melee: MeleeSpec, tuning: &Tuning) -> Fixed {
        if tuning.melee_speed_scale_k.0 > 0 {
            melee.base_damage.mul(
                Fixed::one().add(tuning.melee_speed_scale_k.mul(self.velocity.length())),
            )
        } else {
            melee.base_damage
        }
    }

    /// The damage of one melee hit: the weapon's base damage, times
    /// `1 + k × speed` of the attacker where the tuning's speed scale `k`
    /// is positive.
    #[verifier::when_used_as_spec(spec_melee_damage)]
    pub fn melee_damage(self, melee: MeleeSpec, tuning: &Tuning) -> (r: Fixed)
        ensures
            r == self.spec_melee_damage(melee, tuning),
    {
        if tuning.melee_speed_scale_k.0 > 0 {
            melee.base_damage.mul(
                Fixed::one().add(tuning.melee_speed_scale_k.mul(self.velocity.length())),
            )
        } else {
            melee.base_damage
        }
    }

    /// The events of one melee hit on `target`: the damage, and the
    /// weapon's control effect if it has one.
    pub open spec fn melee_hit_events(self, melee: MeleeSpec, target: TopEntity, tuning: &Tuning) -> Seq<
        GameEvent,
    > {
        let damage = GameEvent::DealDamage {
            src: Some(self.id),
            dst: target.id,
            amount: self.melee_damage(melee, tuning),
            kind: DamageKind::Melee,
        };
        match melee.hit_control {
            Some(control) => seq![
                damage,
                GameEvent::ApplyControl { src: Some(self.id), dst: target.id, control },
            ],
            None => seq![damage],
        }
    }

    /// Whether the top hits `target` now, given its running cooldowns: the
    /// target is another top, no cooldown on it is running, and the blade
    /// reaches it.
    pub open spec fn melee_hits(self, melee: MeleeSpec, target: TopEntity, cooldowns: Seq<HitCooldown>) -> bool {
        target.id != self.id && can_hit_in(cooldowns, target.id) && self.melee_reaches(
            melee,
            target,
        )
    }
}

/// What one attacker's scan of the targets leaves behind.
pub struct MeleeScan {
    /// The attacker's cooldowns, with one more for every hit.
    pub cooldowns: Seq<HitCooldown>,
    /// The events of the hits, in target order.
    pub events: Seq<GameEvent>,
}

/// The scan of `targets` by an attacker with weapon `melee` and running
/// `cooldowns`. Each target it hits gets a cooldown of the weapon's
/// length, which already counts for the targets after it.
pub open spec fn melee_scan(
    attacker: TopEntity,
    melee: MeleeSpec,
    targets: Seq<TopEntity>,
    cooldowns: Seq<HitCooldown>,
    tuning: &Tuning,
) -> MeleeScan
    decreases targets.len(),
{
    if targets.len() == 0 {
        MeleeScan { cooldowns, events: Seq::empty() }
    } else {
        let before = melee_scan(attacker, melee, targets.drop_last(), cooldowns, tuning);
        let target = targets.last();
        if attacker.melee_hits(melee, target, before.cooldowns) {
            MeleeScan {
                cooldowns: before.cooldowns.push(
                    HitCooldown { target: target.id, remaining: melee.hit_cooldown },
                ),
                events: before.events + attacker.melee_hit_events(melee, target, tuning),
            }
        } else {
            before
        }
    }
}

/// The scan of all tops by top `i`, if it has a melee weapon; else
/// nothing.
pub open spec fn attacker_scan(
    tops: Seq<TopEntity>,
    i: int,
    cooldowns: Seq<HitCooldown>,
    tuning: &Tuning,
) -> MeleeScan {
    match tops[i].melee {
        Some(m) => melee_scan(tops[i], m, tops, cooldowns, tuning),
        None => MeleeScan { cooldowns, events: Seq::empty() },
    }
}

/// The melee events of the first `k` tops as attackers, attacker by
/// attacker.
pub open spec fn melee_events(
    tops: Seq<TopEntity>,
    cooldowns: Seq<Seq<HitCooldown>>,
    k: int,
    tuning: &Tuning,
) -> Seq<GameEvent>
    decreases k,
{
    if k <= 0 {
        Seq::empty()
    } else {
        melee_events(tops, cooldowns, k - 1, tuning) + attacker_scan(
            tops,
            k - 1,
            cooldowns[k - 1],
            tuning,
        ).events
    }
}

/// Lets one attacker scan the targets: see [`melee_scan`].
pub fn scan_targets(
    attacker: TopEntity,
    melee: MeleeSpec,
    targets: &Vec<TopEntity>,
    tracker: &mut MeleeHitTracker,
    tuning: &Tuning,
    events: &mut Vec<GameEvent>,
)
    ensures
        final(tracker).cooldowns@ == melee_scan(
            attacker,
            melee,
            targets@,
            old(tracker).cooldowns@,
            tuning,
        ).cooldowns,
        final(events)@ == old(events)@ + melee_scan(
            attacker,
            melee,
            targets@,
            old(tracker).cooldowns@,
            tuning,
        ).events,
        attacker.wf() && attacker.melee == Some(melee) && events_wf(old(events)@) ==> events_wf(
            final(events)@,
        ),
{
    let n = targets.len();
    let mut j: usize = 0;
    while j < n
        invariant
            j <= n,
            n == targets.len(),
            tracker.cooldowns@ == melee_scan(
                attacker,
                melee,
                targets@.take(j as int),
                old(tracker).cooldowns@,
                tuning,
            ).cooldowns,
            events@ == old(events)@ + melee_scan(
                attacker,
                melee,
                targets@.take(j as int),
                old(tracker).cooldowns@,
                tuning,
            ).events,
            attacker.wf() && attacker.melee == Some(melee) && events_wf(old(events)@)
                ==> events_wf(events@),
        decreases n - j,
    {
        proof {
            assert(targets@.take(j as int + 1).drop_last() == targets@.take(j as int));
        }
        let target = targets[j];
        if target.id.0 != attacker.id.0 && tracker.can_hit(target.id) && attacker.melee_reaches(
            melee,
            target,
        ) {
            tracker.register_hit(target.id, melee.hit_cooldown);
            events.push(
                GameEvent::DealDamage {
                    src: Some(attacker.id),
                    dst: target.id,
                    amount: attacker.melee_damage(melee, tuning),
                    kind: DamageKind::Melee,
                },
            );
            match melee.hit_control {
                Some(control) => {
                    events.push(
                        GameEvent::ApplyControl { src: Some(attacker.id), dst: target.id, control },
                    );
                },
                None => {},
            }
        }
        j += 1;
    }
    assert(targets@.take(n as int) == targets@);
}

/// How many tops have a tracker: the shorter of the two tables.
pub open spec fn tracked_tops(tops: int, trackers: int) -> int {
    if tops <= trackers {
        tops
    } else {
        trackers
    }
}

/// Melee for one tick: every top with a melee weapon tests every other
/// top, and each hit starts a cooldown on its target and queues its
/// events. `trackers` holds the cooldowns of the tops, place by place; a
/// top without a tracker does not attack.
pub fn detect_melee_hits(
    tuning: &Tuning,
    tops: &Vec<TopEntity>,
    trackers: &mut Vec<MeleeHitTracker>,
    events: &mut Vec<GameEvent>,
)
    ensures
        final(trackers)@.len() == old(trackers)@.len(),
        forall|i: int|
            0 <= i < old(trackers)@.len() && i < tops@.len() ==> (#[trigger] final(trackers)@[i]).cooldowns@
                == attacker_scan(
                tops@,
                i,
                old(trackers)@[i].cooldowns@,
                tuning,
            ).cooldowns,
        forall|i: int|
            tops@.len() <= i < old(trackers)@.len() ==> (#[trigger] final(trackers)@[i]) == old(
                trackers,
            )@[i],
        final(events)@ == old(events)@ + melee_events(
            tops@,
            tracker_views(old(trackers)@),
            tracked_tops(tops@.len() as int, old(trackers)@.len() as int),
            tuning,
        ),
        tops_wf(tops@) && events_wf(old(events)@) ==> events_wf(final(events)@),
{
    let n = if tops.len() <= trackers.len() {
        tops.len()
    } else {
        trackers.len()
    };
    let mut i: usize = 0;
    while i < n
        invariant
            i <= n,
            n <= tops.len(),
            n <= trackers.len(),
            n == tracked_tops(tops@.len() as int, old(trackers)@.len() as int),
            trackers.len() == old(trackers)@.len(),
            forall|j: int|
                0 <= j < i ==> (#[trigger] trackers@[j]).cooldowns@ == attacker_scan(
                    tops@,
                    j,
                    old(trackers)@[j].cooldowns@,
                    tuning,
                ).cooldowns,
            forall|j: int|
                i <= j < trackers.len() ==> (#[trigger] trackers@[j]) == old(trackers)@[j],
            events@ == old(events)@ + melee_events(
                tops@,
                tracker_views(old(trackers)@),
                i as int,
                tuning,
            ),
            tops_wf(tops@) && events_wf(old(events)@) ==> events_wf(events@),
        decreases n - i,
    {
        let attacker = tops[i];
        match attacker.melee {
            Some(m) => {
                scan_targets(attacker, m, tops, &mut trackers[i], tuning, events);
            },
            None => {},
        }
        i += 1;
    }
}

} // verus!
