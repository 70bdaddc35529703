//! Setting a battle up: tops from builds, obstacles and zones from a map,
//! the launch, and the host's per-tick inputs.

use vstd::prelude::*;
use crate::components::{
    DamageBoostZone, GravityDevice, HitCooldown, MeleeHitTracker, SpeedBoostZone,
};
use crate::config::tuning::Tuning;
use crate::entity::{
    find_top, top_index, EntityId, ObstacleEntity, TopEntity, ZoneEntity, ZoneKind,
};
use crate::fixed::{Fixed, SCALE};
use crate::intent::Intent;
use crate::map::{MapItem, MapPlacement, MapSpec, GRID_CELL_HALF_RAW};
use crate::parts::weapon_wheel::{MeleeSpec, RangedSpec};
use crate::parts::Build;
use crate::stats::effective::EffectiveStats;
use crate::stats::types::{AngleRad, CollisionBehavior};
use crate::vector::{lemma_scaled_components, Vec2};
use crate::world::{World, WorldModel};

verus! {

/// Reach of a gravity device a map places, in raw units.
pub const MAP_GRAVITY_RADIUS_RAW: i64 = 3_000_000;

/// Multiplier of a boost zone a map places, in raw units.
pub const MAP_BOOST_MULTIPLIER_RAW: i64 = 1_500_000;

/// Seconds a speed boost from a map's zone lasts, in raw units.
pub const MAP_SPEED_BOOST_DURATION_RAW: i64 = 3_000_000;

impl TopEntity {
    pub open spec fn spec_launched(self, angle: AngleRad) -> TopEntity {
        TopEntity { velocity: angle.direction().scale(self.stats.move_speed.0), ..self }
    }

    /// The top launched at `angle`: it moves that way at its move speed.
    #[verifier::when_used_as_spec(spec_launched)]
    pub fn launched(self, angle: AngleRad) -> (r: TopEntity)
        ensures
            r == self.spec_launched(angle),
            self.wf() ==> r.wf(),
    {
        let dir = angle.direction();
        let speed = self.stats.move_speed.0;
        proof {
            if self.wf() {
                if speed.0 > 0 {
                    lemma_scaled_components(
                        dir.x.0 as int,
                        dir.y.0 as int,
                        speed.0 as int,
                        SCALE as int,
                    );
                } else {
                    assert(dir.x.0 * 0 == 0 && dir.y.0 * 0 == 0) by (nonlinear_arith);
                    assert(0 * 0 == 0int);
                }
            }
        }
        TopEntity { velocity: dir.scale(speed), ..self }
    }
}

impl MapPlacement {
    /// The obstacle a map's obstacle item stands for: half a cell in
    /// radius, solid, damaging on contact, there for the whole battle.
    pub open spec fn as_obstacle(self, id: EntityId) -> ObstacleEntity {
        ObstacleEntity {
            id,
            position: self.world_position(),
            radius: Fixed(GRID_CELL_HALF_RAW),
            behavior: CollisionBehavior::DamageOnHit,
            owner: None,
            expires_at: None,
            solid: true,
        }
    }

    /// The zone a map's zone item stands for: half a cell in radius; a
    /// gravity device reaches 3 units, a boost zone multiplies by 1.5, and
    /// a speed boost lasts 3 seconds.
    pub open spec fn as_zone(self, id: EntityId) -> ZoneEntity {
        ZoneEntity {
            id,
            position: self.world_position(),
            radius: Fixed(GRID_CELL_HALF_RAW),
            kind: match self.item {
                MapItem::GravityDevice => ZoneKind::Gravity(
                    GravityDevice { radius: Fixed(MAP_GRAVITY_RADIUS_RAW) },
                ),
                MapItem::SpeedBoost => ZoneKind::SpeedBoost(
                    SpeedBoostZone {
                        multiplier: Fixed(MAP_BOOST_MULTIPLIER_RAW),
                        duration: Fixed(MAP_SPEED_BOOST_DURATION_RAW),
                    },
                ),
                _ => ZoneKind::DamageBoost(
                    DamageBoostZone { multiplier: Fixed(MAP_BOOST_MULTIPLIER_RAW) },
                ),
            },
        }
    }
}

impl WorldModel {
    /// The world with one more top, under the next identity. Once the
    /// identities are used up, nothing is added.
    pub open spec fn with_top(
        self,
        position: Vec2,
        rotation: AngleRad,
        stats: EffectiveStats,
        melee: Option<MeleeSpec>,
        ranged: Option<RangedSpec>,
        weapon_spin: Fixed,
    ) -> WorldModel {
        if self.next_id < u64::MAX {
            WorldModel {
                tops: self.tops.push(
                    TopEntity::spec_spawn(
                        EntityId(self.next_id),
                        position,
                        rotation,
                        stats,
                        melee,
                        ranged,
                        weapon_spin,
                    ),
                ),
                cooldowns: self.cooldowns.push(Seq::empty()),
                next_id: (self.next_id + 1) as u64,
                ..self
            }
        } else {
            self
        }
    }

    /// The world with the item of one placement added, under the next
    /// identity. Once the identities are used up, nothing is added.
    pub open spec fn placed(self, p: MapPlacement) -> WorldModel {
        if self.next_id < u64::MAX {
            match p.item {
                MapItem::Obstacle => WorldModel {
                    obstacles: self.obstacles.push(p.as_obstacle(EntityId(self.next_id))),
                    next_id: (self.next_id + 1) as u64,
                    ..self
                },
                _ => WorldModel {
                    zones: self.zones.push(p.as_zone(EntityId(self.next_id))),
                    next_id: (self.next_id + 1) as u64,
                    ..self
                },
            }
        } else {
            self
        }
    }

    /// The world with the items of all placements added, in order.
    pub open spec fn placed_all(self, placements: Seq<MapPlacement>) -> WorldModel
        decreases placements.len(),
    {
        if placements.len() == 0 {
            self
        } else {
            self.placed_all(placements.drop_last()).placed(placements.last())
        }
    }

    /// The world with the top `id` replaced by `changed`, if it is there.
    pub open spec fn with_top_changed(self, id: EntityId, changed: TopEntity) -> WorldModel {
        match top_index(self.tops, id) {
            Some(i) => WorldModel { tops: self.tops.update(i, changed), ..self },
            None => self,
        }
    }

    /// Whether the battle is over: some top has no spin left.
    pub open spec fn is_over(self) -> bool {
        exists|i: int| 0 <= i < self.tops.len() && !(#[trigger] self.tops[i]).spin_hp.is_alive()
    }
}

impl World {
    /// Adds a top to the world. Returns its identity, or `None` once the
    /// identities are used up.
    pub fn spawn_top(
        &mut self,
        position: Vec2,
        rotation: AngleRad,
        stats: EffectiveStats,
        melee: Option<MeleeSpec>,
        ranged: Option<RangedSpec>,
        weapon_spin: Fixed,
    ) -> (id: Option<EntityId>)
        ensures
            final(self)@ == old(self)@.with_top(
                position,
                rotation,
                stats,
                melee,
                ranged,
                weapon_spin,
            ),
            id == if old(self).next_id < u64::MAX {
                Some(EntityId(old(self).next_id))
            } else {
                None
            },
            old(self).wf() && stats.wf() && rotation.wf() && (melee matches Some(m) ==> (
            m.hit_control matches Some(c) ==> c.wf())) ==> final(self).wf(),
    {
        if self.next_id == u64::MAX {
            return None;
        }
        let id = EntityId(self.next_id);
        let top = TopEntity::spawn(id, position, rotation, stats, melee, ranged, weapon_spin);
        self.tops.push(top);
        self.trackers.push(MeleeHitTracker::new());
        self.next_id = self.next_id + 1;
        assert(self@.cooldowns =~= old(self)@.cooldowns.push(Seq::<HitCooldown>::empty()));
        Some(id)
    }

    /// Adds the top of a resolved build: its effective stats are computed
    /// from the build's parts and the tuning, and its weapon is the
    /// build's.
    pub fn spawn_build(
        &mut self,
        position: Vec2,
        rotation: AngleRad,
        build: &Build,
        tuning: &Tuning,
    ) -> (id: Option<EntityId>)
        ensures
            final(self)@ == old(self)@.with_top(
                position,
                rotation,
                build.spec_combined_modifiers().compute_effective(build.top, *tuning),
                build.weapon.melee,
                build.weapon.ranged,
                build.weapon.spin_rate_multiplier(),
            ),
            id == if old(self).next_id < u64::MAX {
                Some(EntityId(old(self).next_id))
            } else {
                None
            },
            old(self).wf() && tuning.wf() && rotation.wf() && (build.weapon.melee matches Some(m)
                ==> (m.hit_control matches Some(c) ==> c.wf())) ==> final(self).wf(),
    {
        let stats = build.combined_modifiers().compute_effective(&build.top, tuning);
        self.spawn_top(
            position,
            rotation,
            stats,
            build.weapon.melee,
            build.weapon.ranged,
            build.weapon.spin_rate_multiplier(),
        )
    }

    /// Adds the item of one map placement.
    pub fn place(&mut self, p: MapPlacement)
        ensures
            final(self)@ == old(self)@.placed(p),
            final(self).tops == old(self).tops,
            final(self).trackers == old(self).trackers,
            final(self).pending == old(self).pending,
            old(self)@.ids_fresh() ==> final(self)@.ids_fresh(),
    {
        if self.next_id == u64::MAX {
            return ;
        }
        let id = EntityId(self.next_id);
        let position = p.world_position();
        let radius = Fixed(GRID_CELL_HALF_RAW);
        match p.item {
            MapItem::Obstacle => {
                self.obstacles.push(
                    ObstacleEntity {
                        id,
                        position,
                        radius,
                        behavior: CollisionBehavior::DamageOnHit,
                        owner: None,
                        expires_at: None,
                        solid: true,
                    },
                );
            },
            MapItem::GravityDevice => {
                self.zones.push(
                    ZoneEntity {
                        id,
                        position,
                        radius,
                        kind: ZoneKind::Gravity(
                            GravityDevice { radius: Fixed(MAP_GRAVITY_RADIUS_RAW) },
                        ),
                    },
                );
            },
            MapItem::SpeedBoost => {
                self.zones.push(
                    ZoneEntity {
                        id,
                        position,
                        radius,
                        kind: ZoneKind::SpeedBoost(
                            SpeedBoostZone {
                                multiplier: Fixed(MAP_BOOST_MULTIPLIER_RAW),
                                duration: Fixed(MAP_SPEED_BOOST_DURATION_RAW),
                            },
                        ),
                    },
                );
            },
            MapItem::DamageBoost => {
                self.zones.push(
                    ZoneEntity {
                        id,
                        position,
                        radius,
                        kind: ZoneKind::DamageBoost(
                            DamageBoostZone { multiplier: Fixed(MAP_BOOST_MULTIPLIER_RAW) },
                        ),
                    },
                );
            },
        }
        self.next_id = self.next_id + 1;
    }

    /// Sets the arena up from a map: takes its radius and adds the item of
    /// every placement, in order. Whether a placement lies inside the
    /// arena is not checked here.
    pub fn place_map(&mut self, map: &MapSpec)
        ensures
            final(self)@ == (WorldModel {
                arena_radius: map.arena_radius,
                ..old(self)@
            }).placed_all(map.placements@),
            old(self).wf() ==> final(self).wf(),
    {
        self.arena_radius = map.arena_radius;
        let n = map.placements.len();
        let mut i: usize = 0;
        while i < n
            invariant
                i <= n,
                n == map.placements.len(),
                self@ == (WorldModel { arena_radius: map.arena_radius, ..old(self)@ }).placed_all(
                    map.placements@.take(i as int),
                ),
                self.tops == old(self).tops,
                self.trackers == old(self).trackers,
                self.pending == old(self).pending,
                old(self)@.ids_fresh() ==> self@.ids_fresh(),
            decreases n - i,
        {
            proof {
                assert(map.placements@.take(i as int + 1).drop_last() == map.placements@.take(
                    i as int,
                ));
            }
            self.place(map.placements[i]);
            i += 1;
        }
        assert(map.placements@.take(n as int) == map.placements@);
    }

    /// Launches the top `id` at `angle`. Returns whether the top is there.
    pub fn launch_top(&mut self, id: EntityId, angle: AngleRad) -> (found: bool)
        ensures
            found == top_index(old(self)@.tops, id).is_some(),
            final(self)@ == match top_index(old(self)@.tops, id) {
                Some(i) => old(self)@.with_top_changed(id, old(self)@.tops[i].launched(angle)),
                None => old(self)@,
            },
            old(self).wf() ==> final(self).wf(),
    {
        match find_top(&self.tops, id) {
            Some(i) => {
                let t = self.tops[i].launched(angle);
                self.tops.set(i, t);
                true
            },
            None => false,
        }
    }

    /// Sets the intent of the top `id` for the coming tick. Returns
    /// whether the top is there.
    pub fn set_intent(&mut self, id: EntityId, intent: Intent) -> (found: bool)
        ensures
            found == top_index(old(self)@.tops, id).is_some(),
            final(self)@ == match top_index(old(self)@.tops, id) {
                Some(i) => old(self)@.with_top_changed(
                    id,
                    TopEntity { intent, ..old(self)@.tops[i] },
                ),
                None => old(self)@,
            },
            old(self).wf() ==> final(self).wf(),
    {
        match find_top(&self.tops, id) {
            Some(i) => {
                let t = TopEntity { intent, ..self.tops[i] };
                self.tops.set(i, t);
                true
            },
            None => false,
        }
    }

    /// The top `id`, if it is there.
    pub fn top(&self, id: EntityId) -> (r: Option<TopEntity>)
        ensures
            r == match top_index(self@.tops, id) {
                Some(i) => Some(self@.tops[i]),
                None => None,
            },
    {
        match find_top(&self.tops, id) {
            Some(i) => Some(self.tops[i]),
            None => None,
        }
    }

    /// Whether the battle is over: some top has no spin left. Defeat ends
    /// the battle; it does not remove the top.
    pub fn check_game_over(&self) -> (over: bool)
        ensures
            over == self@.is_over(),
    {
        let n = self.tops.len();
        let mut i: usize = 0;
        while i < n
            invariant
                i <= n,
                n == self.tops.len(),
                forall|j: int| 0 <= j < i ==> (#[trigger] self.tops@[j]).spin_hp.is_alive(),
            decreases n - i,
        {
            if !self.tops[i].spin_hp.is_alive() {
                return true;
            }
            i += 1;
        }
        false
    }
}

} // verus!
