//! Zone effects: speed boost, damage boost and gravity pull. All of them
//! are worked out anew every tick from which tops touch which zones.

use vstd::prelude::*;
use crate::components::{DamageBoostActive, GravityDevice, SpeedBoostEffect};
use crate::config::tuning::Tuning;
use crate::entity::{TopEntity, ZoneEntity, ZoneKind};
use crate::fixed::Fixed;
use crate::physics::{same_ids, tops_wf};
use crate::vector::Vec2;

verus! {

/// How fast a gravity device turns a top toward itself: the share of the
/// direction blended per second, in raw units.
pub const GRAVITY_STEER_STRENGTH_RAW: i64 = 3_000_000;

/// At or below this distance and this speed, in raw units, a gravity
/// device leaves a top alone.
pub const GRAVITY_EPSILON_RAW: i64 = 10_000;

/// What a scan of the speed-boost zones found for one top.
pub struct SpeedBoostScan {
    pub in_zone: bool,
    /// Largest multiplier among the zones touched, and at least 1.
    pub multiplier: Fixed,
    /// Longest duration among the zones touched.
    pub duration: Fixed,
}

/// What a scan of the damage-boost zones found for one top.
pub struct DamageBoostScan {
    pub in_zone: bool,
    /// Largest multiplier among the zones touched, and at least 1.
    pub multiplier: Fixed,
}

impl TopEntity {
    pub open spec fn spec_touches(self, position: Vec2, radius: Fixed) -> bool {
        self.position.distance(position).0 < self.stats.radius.0.add(radius).0
    }

    /// Whether the top overlaps a circle: the centres are closer than the
    /// two radii together.
    #[verifier::when_used_as_spec(spec_touches)]
    pub fn touches(self, position: Vec2, radius: Fixed) -> (r: bool)
        ensures
            r == self.spec_touches(position, radius),
    {
        self.position.distance(position).0 < self.stats.radius.0.add(radius).0
    }

    /// The speed-boost zones among `zones` that the top touches, taken together.
    pub open spec fn speed_boost_scan(self, zones: Seq<ZoneEntity>) -> SpeedBoostScan
        decreases zones.len(),
    {
        if zones.len() == 0 {
            SpeedBoostScan { in_zone: false, multiplier: Fixed::one(), duration: Fixed::zero() }
        } else {
            let rest = self.speed_boost_scan(zones.drop_last());
            let z = zones.last();
            match z.kind {
                ZoneKind::SpeedBoost(b) => if self.touches(z.position, z.radius) {
                    SpeedBoostScan {
                        in_zone: true,
                        multiplier: rest.multiplier.max(b.multiplier),
                        duration: rest.duration.max(b.duration),
                    }
                } else {
                    rest
                },
                _ => rest,
            }
        }
    }

    /// The top after the speed-boost zones have been scanned at time
    /// `now`: inside one or more, it takes the largest multiplier at once
    /// and its boost ends the longest duration from now; outside all, it
    /// is unchanged and the boost it has runs on.
    pub open spec fn spec_with_speed_boost(self, zones: Seq<ZoneEntity>, now: Fixed) -> TopEntity {
        let scan = self.speed_boost_scan(zones);
        if scan.in_zone {
            TopEntity {
                speed_boost: SpeedBoostEffect {
                    expires_at: now.add(scan.duration),
                    multiplier: scan.multiplier,
                },
                ..self
            }
        } else {
            self
        }
    }

    /// Scans the speed-boost zones for this top: see
    /// [`TopEntity::spec_with_speed_boost`].
    pub fn with_speed_boost(self, zones: &Vec<ZoneEntity>, now: Fixed) -> (r: TopEntity)
        ensures
            r == self.spec_with_speed_boost(zones@, now),
            self.wf() ==> r.wf(),
            r.id == self.id,
    {
        let mut in_zone = false;
        let mut best_mult = Fixed::one();
        let mut best_dur = Fixed::zero();
        let n = zones.len();
        let mut j: usize = 0;
        while j < n
            invariant
                j <= n,
                n == zones.len(),
                self.speed_boost_scan(zones@.take(j as int)) == (SpeedBoostScan {
                    in_zone,
                    multiplier: best_mult,
                    duration: best_dur,
                }),
            decreases n - j,
        {
            proof {
                assert(zones@.take(j as int + 1).drop_last() == zones@.take(j as int));
            }
            let z = zones[j];
            match z.kind {
                ZoneKind::SpeedBoost(b) => {
                    if self.touches(z.position, z.radius) {
                        in_zone = true;
                        best_mult = best_mult.max(b.multiplier);
                        best_dur = best_dur.max(b.duration);
                    }
                },
                _ => {},
            }
            j += 1;
        }
        assert(zones@.take(n as int) == zones@);
        if in_zone {
            TopEntity {
                speed_boost: SpeedBoostEffect {
                    expires_at: now.add(best_dur),
                    multiplier: best_mult,
                },
                ..self
            }
        } else {
            self
        }
    }

    pub open spec fn spec_speed_boost_ticked(self, now: Fixed) -> TopEntity {
        if now.0 >= self.speed_boost.expires_at.0 {
            TopEntity {
                speed_boost: SpeedBoostEffect { multiplier: Fixed::one(), ..self.speed_boost },
                ..self
            }
        } else {
            self
        }
    }

    /// The top with its speed boost back at 1 once the boost has ended.
    #[verifier::when_used_as_spec(spec_speed_boost_ticked)]
    pub fn speed_boost_ticked(self, now: Fixed) -> (r: TopEntity)
        ensures
            r == self.spec_speed_boost_ticked(now),
            self.wf() ==> r.wf(),
            r.id == self.id,
    {
        if now.0 >= self.speed_boost.expires_at.0 {
            TopEntity {
                speed_boost: SpeedBoostEffect {
                    expires_at: self.speed_boost.expires_at,
                    multiplier: Fixed::one(),
                },
                ..self
            }
        } else {
            self
        }
    }

    /// The damage-boost zones among `zones` that the top touches, taken together.
    pub open spec fn damage_boost_scan(self, zones: Seq<ZoneEntity>) -> DamageBoostScan
        decreases zones.len(),
    {
        if zones.len() == 0 {
            DamageBoostScan { in_zone: false, multiplier: Fixed::one() }
        } else {
            let rest = self.damage_boost_scan(zones.drop_last());
            let z = zones.last();
            match z.kind {
                ZoneKind::DamageBoost(b) => if self.touches(z.position, z.radius) {
                    DamageBoostScan {
                        in_zone: true,
                        multiplier: rest.multiplier.max(b.multiplier),
                    }
                } else {
                    rest
                },
                _ => rest,
            }
        }
    }

    /// The top after the damage-boost zones have been scanned: inside one
    /// or more, its boost is the largest multiplier; outside all, it is 1.
    pub open spec fn spec_with_damage_boost(self, zones: Seq<ZoneEntity>) -> TopEntity {
        let scan = self.damage_boost_scan(zones);
        TopEntity {
            damage_boost: DamageBoostActive {
                multiplier: if scan.in_zone {
                    scan.multiplier
                } else {
                    Fixed::one()
                },
            },
            ..self
        }
    }

    /// Scans the damage-boost zones for this top: see
    /// [`TopEntity::spec_with_damage_boost`].
    pub fn with_damage_boost(self, zones: &Vec<ZoneEntity>) -> (r: TopEntity)
        ensures
            r == self.spec_with_damage_boost(zones@),
            self.wf() ==> r.wf(),
            r.id == self.id,
            r.damage_boost.multiplier.0 >= 1_000_000,
    {
        let mut in_zone = false;
        let mut best_mult = Fixed::one();
        let n = zones.len();
        let mut j: usize = 0;
        while j < n
            invariant
                j <= n,
                n == zones.len(),
                best_mult.0 >= 1_000_000,
                self.damage_boost_scan(zones@.take(j as int)) == (DamageBoostScan {
                    in_zone,
                    multiplier: best_mult,
                }),
            decreases n - j,
        {
            proof {
                assert(zones@.take(j as int + 1).drop_last() == zones@.take(j as int));
            }
            let z = zones[j];
            match z.kind {
                ZoneKind::DamageBoost(b) => {
                    if self.touches(z.position, z.radius) {
                        in_zone = true;
                        best_mult = best_mult.max(b.multiplier);
                    }
                },
                _ => {},
            }
            j += 1;
        }
        assert(zones@.take(n as int) == zones@);
        TopEntity {
            damage_boost: DamageBoostActive {
                multiplier: if in_zone {
                    best_mult
                } else {
                    Fixed::one()
                },
            },
            ..self
        }
    }

    pub open spec fn spec_steered(self, center: Vec2, device: GravityDevice, dt: Fixed) -> TopEntity {
        let dist = self.position.distance(center);
        let speed = self.velocity.length();
        if dist.0 < device.radius.add(self.stats.radius.0).0 && dist.0 > GRAVITY_EPSILON_RAW
            && speed.0 > GRAVITY_EPSILON_RAW {
            let toward = center.sub(self.position).normalize_or_zero();
            let blend = Fixed(GRAVITY_STEER_STRENGTH_RAW).mul(dt).min(Fixed::one());
            let current = self.velocity.normalize_or_zero();
            let heading = current.scale(Fixed::one().sub(blend)).add(
                toward.scale(blend),
            ).normalize_or_zero();
            TopEntity {
                velocity: heading.scale(speed).clamp_length(self.stats.move_speed.0),
                ..self
            }
        } else {
            self
        }
    }

    /// The top after a gravity device at `center` has pulled on it for `dt`
    /// seconds. Within the device's reach (and neither on top of it nor at
    /// rest) the direction of the velocity is blended toward the device by
    /// `min(steer_strength × dt, 1)`; the speed stays as it was.
    #[verifier::when_used_as_spec(spec_steered)]
    pub fn steered(self, center: Vec2, device: GravityDevice, dt: Fixed) -> (r: TopEntity)
        ensures
            r == self.spec_steered(center, device, dt),
            self.wf() ==> r.wf(),
            r.id == self.id,
            r.position == self.position,
            r.spin_hp == self.spin_hp,
    {
        let dist = self.position.distance(center);
        let speed = self.velocity.length();
        if dist.0 < device.radius.add(self.stats.radius.0).0 && dist.0 > GRAVITY_EPSILON_RAW
            && speed.0 > GRAVITY_EPSILON_RAW {
            let toward = center.sub(self.position).normalize_or_zero();
            let blend = Fixed(GRAVITY_STEER_STRENGTH_RAW).mul(dt).min(Fixed::one());
            let current = self.velocity.normalize_or_zero();
            let heading = current.scale(Fixed::one().sub(blend)).add(
                toward.scale(blend),
            ).normalize_or_zero();
            TopEntity {
                velocity: heading.scale(speed).clamp_length(self.stats.move_speed.0),
                ..self
            }
        } else {
            self
        }
    }

    /// The top after every gravity device among `zones` has pulled on it
    /// in turn.
    pub open spec fn spec_with_gravity(self, zones: Seq<ZoneEntity>, dt: Fixed) -> TopEntity
        decreases zones.len(),
    {
        if zones.len() == 0 {
            self
        } else {
            let before = self.spec_with_gravity(zones.drop_last(), dt);
            let z = zones.last();
            match z.kind {
                ZoneKind::Gravity(g) => before.steered(z.position, g, dt),
                _ => before,
            }
        }
    }

    /// Lets every gravity device pull on this top: see
    /// [`TopEntity::spec_with_gravity`].
    pub fn with_gravity(self, zones: &Vec<ZoneEntity>, dt: Fixed) -> (r: TopEntity)
        ensures
            r == self.spec_with_gravity(zones@, dt),
            self.wf() ==> r.wf(),
            r.id == self.id,
            r.position == self.position,
            r.spin_hp == self.spin_hp,
    {
        let mut top = self;
        let n = zones.len();
        let mut j: usize = 0;
        while j < n
            invariant
                j <= n,
                n == zones.len(),
                top == self.spec_with_gravity(zones@.take(j as int), dt),
                self.wf() ==> top.wf(),
                top.id == self.id,
                top.position == self.position,
                top.spin_hp == self.spin_hp,
            decreases n - j,
        {
            proof {
                assert(zones@.take(j as int + 1).drop_last() == zones@.take(j as int));
            }
            let z = zones[j];
            match z.kind {
                ZoneKind::Gravity(g) => {
                    top = top.steered(z.position, g, dt);
                },
                _ => {},
            }
            j += 1;
        }
        assert(zones@.take(n as int) == zones@);
        top
    }
}

/// Gives every top inside a speed-boost zone that zone's boost.
pub fn speed_boost_system(now: Fixed, zones: &Vec<ZoneEntity>, tops: &mut Vec<TopEntity>)
    ensures
        final(tops)@.len() == old(tops)@.len(),
        forall|i: int|
            0 <= i < old(tops)@.len() ==> (#[trigger] final(tops)@[i]) == old(
                tops,
            )@[i].spec_with_speed_boost(zones@, now),
        tops_wf(old(tops)@) ==> tops_wf(final(tops)@),
        same_ids(old(tops)@, final(tops)@),
{
    let n = tops.len();
    let mut i: usize = 0;
    while i < n
        invariant
            i <= n,
            n == tops.len(),
            n == old(tops)@.len(),
            forall|j: int|
                0 <= j < i ==> (#[trigger] tops@[j]) == old(tops)@[j].spec_with_speed_boost(
                    zones@,
                    now,
                ),
            forall|j: int| i <= j < n ==> (#[trigger] tops@[j]) == old(tops)@[j],
            tops_wf(old(tops)@) ==> tops_wf(tops@),
            same_ids(old(tops)@, tops@),
        decreases n - i,
    {
        let t = tops[i].with_speed_boost(zones, now);
        tops.set(i, t);
        i += 1;
    }
}

/// Ends every speed boost whose time has come.
pub fn speed_boost_tick(now: Fixed, tops: &mut Vec<TopEntity>)
    ensures
        final(tops)@.len() == old(tops)@.len(),
        forall|i: int|
            0 <= i < old(tops)@.len() ==> (#[trigger] final(tops)@[i]) == old(
                tops,
            )@[i].speed_boost_ticked(now),
        tops_wf(old(tops)@) ==> tops_wf(final(tops)@),
        same_ids(old(tops)@, final(tops)@),
{
    let n = tops.len();
    let mut i: usize = 0;
    while i < n
        invariant
            i <= n,
            n == tops.len(),
            n == old(tops)@.len(),
            forall|j: int|
                0 <= j < i ==> (#[trigger] tops@[j]) == old(tops)@[j].speed_boost_ticked(now),
            forall|j: int| i <= j < n ==> (#[trigger] tops@[j]) == old(tops)@[j],
            tops_wf(old(tops)@) ==> tops_wf(tops@),
            same_ids(old(tops)@, tops@),
        decreases n - i,
    {
        let t = tops[i].speed_boost_ticked(now);
        tops.set(i, t);
        i += 1;
    }
}

/// Sets every top's damage boost from the zones it touches now.
pub fn damage_boost_system(zones: &Vec<ZoneEntity>, tops: &mut Vec<TopEntity>)
    ensures
        final(tops)@.len() == old(tops)@.len(),
        forall|i: int|
            0 <= i < old(tops)@.len() ==> (#[trigger] final(tops)@[i]) == old(
                tops,
            )@[i].spec_with_damage_boost(zones@),
        tops_wf(old(tops)@) ==> tops_wf(final(tops)@),
        same_ids(old(tops)@, final(tops)@),
{
    let n = tops.len();
    let mut i: usize = 0;
    while i < n
        invariant
            i <= n,
            n == tops.len(),
            n == old(tops)@.len(),
            forall|j: int|
                0 <= j < i ==> (#[trigger] tops@[j]) == old(tops)@[j].spec_with_damage_boost(
                    zones@,
                ),
            forall|j: int| i <= j < n ==> (#[trigger] tops@[j]) == old(tops)@[j],
            tops_wf(old(tops)@) ==> tops_wf(tops@),
            same_ids(old(tops)@, tops@),
        decreases n - i,
    {
        let t = tops[i].with_damage_boost(zones);
        tops.set(i, t);
        i += 1;
    }
}

/// Lets every gravity device steer the tops within its reach.
pub fn gravity_device_system(tuning: &Tuning, zones: &Vec<ZoneEntity>, tops: &mut Vec<TopEntity>)
    ensures
        final(tops)@.len() == old(tops)@.len(),
        forall|i: int|
            0 <= i < old(tops)@.len() ==> (#[trigger] final(tops)@[i]) == old(
                tops,
            )@[i].spec_with_gravity(zones@, tuning.dt),
        tops_wf(old(tops)@) ==> tops_wf(final(tops)@),
        same_ids(old(tops)@, final(tops)@),
{
    let n = tops.len();
    let mut i: usize = 0;
    while i < n
        invariant
            i <= n,
            n == tops.len(),
            n == old(tops)@.len(),
            forall|j: int|
                0 <= j < i ==> (#[trigger] tops@[j]) == old(tops)@[j].spec_with_gravity(
                    zones@,
                    tuning.dt,
                ),
            forall|j: int| i <= j < n ==> (#[trigger] tops@[j]) == old(tops)@[j],
            tops_wf(old(tops)@) ==> tops_wf(tops@),
            same_ids(old(tops)@, tops@),
        decreases n - i,
    {
        let t = tops[i].with_gravity(zones, tuning.dt);
        tops.set(i, t);
        i += 1;
    }
}

} // verus!
