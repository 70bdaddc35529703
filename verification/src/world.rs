//! The world of a battle and the tick that advances it.
//!
//! A tick runs its phases in a fixed order: zones, physics, walls and
//! obstacles, collision detection, event generation, event application,
//! cleanup. Every event of a tick is generated before any is applied.

use vstd::prelude::*;
use crate::arena::circle::{
    despawn_projectiles_outside_arena, inside_arena_pred, outside_projectile_ids,
    wall_damage_events, wall_reflection,
};
use crate::arena::obstacle::{
    cleanup_ttl, expired_obstacle_ids, expired_projectile_ids, handle_despawn_events,
    lemma_spawned_obstacles, lemma_spawned_projectiles, obstacle_live_pred,
    obstacle_unrequested_pred, projectile_live_pred, projectile_unrequested_pred, requested_ids,
    spawn_obstacles, spawn_projectiles, spawned_obstacles, spawned_projectiles,
    static_obstacle_bounce,
};
use crate::collision::{detect_collisions, obstacle_hits, projectile_hits, top_contacts};
use crate::combat::{
    apply_control_events, apply_damage_events, collision_damage, generate_collision_damage,
    resolve_top_collisions, with_collisions, with_control_events, with_damage_events,
};
use crate::components::{ticked_cooldowns, tracker_views, HitCooldown, MeleeHitTracker};
use crate::config::tuning::Tuning;
use crate::entity::{EntityId, ObstacleEntity, ProjectileEntity, TopEntity, ZoneEntity};
use crate::events::{events_wf, CollisionMessage, GameEvent};
use crate::filter::{lemma_filter_all, lemma_filter_members, lemma_filter_none};
use crate::fixed::Fixed;
use crate::physics::{
    apply_intent, integrate_physics, integrate_projectiles, spin_drain, tick_control_state,
    tick_melee_trackers, tops_wf,
};
use crate::stats::types::Tick;
use crate::hooks::process_hooks;
use crate::weapons::{
    attacker_scan, detect_melee_hits, fire_ranged_weapons, melee_events, ranged_shots,
    tracked_tops,
};
use crate::zones::{
    damage_boost_system, gravity_device_system, speed_boost_system, speed_boost_tick,
};

verus! {

/// Everything in the arena, in flat tables.
#[derive(Debug)]
pub struct World {
    pub tops: Vec<TopEntity>,
    /// The melee cooldowns of the tops, place by place.
    pub trackers: Vec<MeleeHitTracker>,
    pub projectiles: Vec<ProjectileEntity>,
    pub obstacles: Vec<ObstacleEntity>,
    pub zones: Vec<ZoneEntity>,
    pub arena_radius: Fixed,
    /// Battle time elapsed, in seconds.
    pub now: Fixed,
    pub tick: Tick,
    /// The identity the next spawn gets.
    pub next_id: u64,
    /// The events of the last tick, in the order they were queued.
    pub events: Vec<GameEvent>,
    /// The contacts of the last tick.
    pub collisions: Vec<CollisionMessage>,
    /// Events the host has queued for the coming tick.
    pub pending: Vec<GameEvent>,
}

/// The mathematical content of a [`World`].
pub struct WorldModel {
    pub tops: Seq<TopEntity>,
    pub cooldowns: Seq<Seq<HitCooldown>>,
    pub projectiles: Seq<ProjectileEntity>,
    pub obstacles: Seq<ObstacleEntity>,
    pub zones: Seq<ZoneEntity>,
    pub arena_radius: Fixed,
    pub now: Fixed,
    pub tick: Tick,
    pub next_id: u64,
    pub events: Seq<GameEvent>,
    pub collisions: Seq<CollisionMessage>,
    pub pending: Seq<GameEvent>,
}

impl View for World {
    type V = WorldModel;

    open spec fn view(&self) -> WorldModel {
        WorldModel {
            tops: self.tops@,
            cooldowns: tracker_views(self.trackers@),
            projectiles: self.projectiles@,
            obstacles: self.obstacles@,
            zones: self.zones@,
            arena_radius: self.arena_radius,
            now: self.now,
            tick: self.tick,
            next_id: self.next_id,
            events: self.events@,
            collisions: self.collisions@,
            pending: self.pending@,
        }
    }
}

impl WorldModel {
    /// Whether every identity in the world is below the next one to be
    /// given out, so that a spawn never gets an identity that is or was in
    /// use.
    pub open spec fn ids_fresh(self) -> bool {
        &&& forall|i: int|
            0 <= i < self.tops.len() ==> (#[trigger] self.tops[i]).id.0 < self.next_id
        &&& forall|i: int|
            0 <= i < self.projectiles.len() ==> (#[trigger] self.projectiles[i]).id.0
                < self.next_id
        &&& forall|i: int|
            0 <= i < self.obstacles.len() ==> (#[trigger] self.obstacles[i]).id.0 < self.next_id
        &&& forall|i: int|
            0 <= i < self.zones.len() ==> (#[trigger] self.zones[i]).id.0 < self.next_id
    }

    /// What holds of the world at every tick: every top is well-formed
    /// (spin within `[0, max]`, speed at most its move speed) and has its
    /// list of cooldowns, every identity is below the next one, and the
    /// events queued for the coming tick carry acceptable control effects.
    pub open spec fn wf(self) -> bool {
        &&& tops_wf(self.tops)
        &&& self.cooldowns.len() == self.tops.len()
        &&& self.ids_fresh()
        &&& events_wf(self.pending)
    }

    /// The world at the start of a tick: the queues of the last tick are
    /// emptied, and the events the host has queued are the first of this
    /// tick.
    pub open spec fn cleared(self) -> WorldModel {
        WorldModel {
            events: self.pending,
            collisions: Seq::empty(),
            pending: Seq::empty(),
            ..self
        }
    }

    /// One top after the zone phase: speed boost taken or ended, damage
    /// boost set, gravity applied.
    pub open spec fn zoned_top(self, t: TopEntity, dt: Fixed) -> TopEntity {
        t.spec_with_speed_boost(self.zones, self.now).speed_boost_ticked(
            self.now,
        ).spec_with_damage_boost(self.zones).spec_with_gravity(self.zones, dt)
    }

    /// The world after the zone phase.
    #[verifier::opaque]
    pub open spec fn after_zones(self, tuning: &Tuning) -> WorldModel {
        WorldModel {
            tops: Seq::new(self.tops.len(), |i: int| self.zoned_top(self.tops[i], tuning.dt)),
            ..self
        }
    }

    /// One top after the physics phase: intent, movement, spin drain,
    /// control timers.
    pub open spec fn moved_top(t: TopEntity, tuning: &Tuning) -> TopEntity {
        t.with_intent(tuning.dt).integrated(tuning).drained(tuning.dt).control_ticked(tuning.dt)
    }

    /// The world after the physics phase.
    #[verifier::opaque]
    pub open spec fn after_physics(self, tuning: &Tuning) -> WorldModel {
        WorldModel {
            tops: Seq::new(self.tops.len(), |i: int| Self::moved_top(self.tops[i], tuning)),
            projectiles: Seq::new(
                self.projectiles.len(),
                |i: int| self.projectiles[i].integrated(tuning.dt),
            ),
            cooldowns: Seq::new(
                self.cooldowns.len(),
                |i: int| ticked_cooldowns(self.cooldowns[i], tuning.dt),
            ),
            ..self
        }
    }

    /// The world after the wall and the solid obstacles have acted.
    #[verifier::opaque]
    pub open spec fn after_walls(self, tuning: &Tuning) -> WorldModel {
        WorldModel {
            tops: Seq::new(
                self.tops.len(),
                |i: int|
                    self.tops[i].wall_reflected(
                        tuning,
                        self.arena_radius,
                    ).top.spec_with_obstacle_bounces(self.obstacles),
            ),
            events: self.events + wall_damage_events(self.tops, tuning, self.arena_radius),
            ..self
        }
    }

    /// The world after collision detection: nothing moved, facts queued.
    #[verifier::opaque]
    pub open spec fn after_detection(self, tuning: &Tuning) -> WorldModel {
        WorldModel {
            collisions: self.collisions + top_contacts(self.tops),
            events: self.events + obstacle_hits(self.tops, self.obstacles, tuning)
                + projectile_hits(self.projectiles, self.tops),
            ..self
        }
    }

    /// The world after event generation: collision damage, then melee,
    /// then ranged fire.
    #[verifier::opaque]
    pub open spec fn after_generation(self, tuning: &Tuning) -> WorldModel {
        WorldModel {
            tops: Seq::new(
                self.tops.len(),
                |i: int| self.tops[i].spec_ranged_ticked(tuning.dt),
            ),
            cooldowns: Seq::new(
                self.cooldowns.len(),
                |i: int|
                    if i < self.tops.len() {
                        attacker_scan(self.tops, i, self.cooldowns[i], tuning).cooldowns
                    } else {
                        self.cooldowns[i]
                    },
            ),
            events: self.events + collision_damage(self.collisions, tuning.collision_damage_k)
                + melee_events(
                self.tops,
                self.cooldowns,
                tracked_tops(self.tops.len() as int, self.cooldowns.len() as int),
                tuning,
            ) + ranged_shots(self.tops, tuning.dt),
            ..self
        }
    }

    /// The identity the next spawn gets once the projectiles of this
    /// tick have been spawned.
    pub open spec fn id_after_projectiles(self) -> u64 {
        (self.next_id + spawned_projectiles(self.events, self.next_id as int).len()) as u64
    }

    /// The world after event application: damage, control, momentum
    /// exchange, spawns.
    #[verifier::opaque]
    pub open spec fn after_application(self, tuning: &Tuning) -> WorldModel {
        WorldModel {
            tops: with_collisions(
                with_control_events(with_damage_events(self.tops, self.events), self.events),
                self.collisions,
                tuning.top_collisions_restitution.clamp(Fixed::zero(), Fixed::one()),
            ),
            projectiles: self.projectiles + spawned_projectiles(self.events, self.next_id as int),
            obstacles: self.obstacles + spawned_obstacles(
                self.events,
                self.id_after_projectiles() as int,
                self.now,
            ),
            next_id: (self.id_after_projectiles() + spawned_obstacles(
                self.events,
                self.id_after_projectiles() as int,
                self.now,
            ).len()) as u64,
            ..self
        }
    }

    /// The world after cleanup: projectiles outside the arena, expired
    /// obstacles and projectiles, and what the events asked to despawn
    /// are gone.
    #[verifier::opaque]
    pub open spec fn after_cleanup(self) -> WorldModel {
        WorldModel {
            projectiles: self.projectiles.filter(inside_arena_pred(self.arena_radius)).filter(
                projectile_live_pred(),
            ).filter(projectile_unrequested_pred(self.events)),
            obstacles: self.obstacles.filter(obstacle_live_pred(self.now)).filter(
                obstacle_unrequested_pred(self.events),
            ),
            ..self
        }
    }

    /// The identities a cleanup of this world despawns, in the order the
    /// cleanup finds them.
    pub open spec fn cleanup_signal(self) -> Seq<EntityId> {
        let inside = self.projectiles.filter(inside_arena_pred(self.arena_radius));
        outside_projectile_ids(self.projectiles, self.arena_radius) + (expired_obstacle_ids(
            self.obstacles,
            self.now,
        ) + expired_projectile_ids(inside)) + requested_ids(
            self.events,
            inside.filter(projectile_live_pred()),
            self.obstacles.filter(obstacle_live_pred(self.now)),
        )
    }

    /// The world with its clock advanced by one tick. The tick counter
    /// stops at its largest value.
    #[verifier::opaque]
    pub open spec fn after_clock(self, tuning: &Tuning) -> WorldModel {
        WorldModel {
            now: self.now.add(tuning.dt),
            tick: if self.tick.0 < u64::MAX {
                Tick((self.tick.0 + 1) as u64)
            } else {
                self.tick
            },
            ..self
        }
    }

    /// The world after one whole tick: the phases in their order.
    #[verifier::opaque]
    pub open spec fn stepped(self, tuning: &Tuning) -> WorldModel {
        self.cleared().after_zones(tuning).after_physics(tuning).after_walls(
            tuning,
        ).after_detection(tuning).after_generation(tuning).after_application(
            tuning,
        ).after_cleanup().after_clock(tuning)
    }

    /// The world after `ticks` ticks.
    pub open spec fn stepped_times(self, tuning: &Tuning, ticks: nat) -> WorldModel
        decreases ticks,
    {
        if ticks == 0 {
            self
        } else {
            self.stepped_times(tuning, (ticks - 1) as nat).stepped(tuning)
        }
    }
}

impl World {
    /// See [`WorldModel::wf`].
    pub open spec fn wf(&self) -> bool {
        self@.wf()
    }

    /// An empty arena of the given radius at time 0.
    pub fn new(arena_radius: Fixed) -> (r: World)
        ensures
            r@ == (WorldModel {
                tops: Seq::empty(),
                cooldowns: Seq::empty(),
                projectiles: Seq::empty(),
                obstacles: Seq::empty(),
                zones: Seq::empty(),
                arena_radius,
                now: Fixed(0),
                tick: Tick(0),
                next_id: 0,
                events: Seq::empty(),
                collisions: Seq::empty(),
                pending: Seq::empty(),
            }),
            r.wf(),
    {
        let world = World {
            tops: Vec::new(),
            trackers: Vec::new(),
            projectiles: Vec::new(),
            obstacles: Vec::new(),
            zones: Vec::new(),
            arena_radius,
            now: Fixed(0),
            tick: Tick(0),
            next_id: 0,
            events: Vec::new(),
            collisions: Vec::new(),
            pending: Vec::new(),
        };
        assert(world@.cooldowns =~= Seq::<Seq<HitCooldown>>::empty());
        world
    }

    /// The zone phase: speed boost, damage boost and gravity, worked out
    /// anew from where the tops are.
    pub fn run_zones(&mut self, tuning: &Tuning)
        ensures
            final(self)@ == old(self)@.after_zones(tuning),
            final(self).tops.len() == old(self).tops.len(),
            final(self).trackers.len() == old(self).trackers.len(),
            final(self).events@ == old(self).events@,
            old(self).wf() ==> final(self).wf(),
    {
        proof {
            reveal(WorldModel::after_zones);
        }
        speed_boost_system(self.now, &self.zones, &mut self.tops);
        speed_boost_tick(self.now, &mut self.tops);
        damage_boost_system(&self.zones, &mut self.tops);
        gravity_device_system(tuning, &self.zones, &mut self.tops);
        assert(self@.tops =~= old(self)@.after_zones(tuning).tops);
    }

    /// The physics phase: intent, movement of tops and projectiles, spin
    /// drain, and the control and cooldown timers.
    pub fn run_physics(&mut self, tuning: &Tuning)
        ensures
            final(self)@ == old(self)@.after_physics(tuning),
            final(self).tops.len() == old(self).tops.len(),
            final(self).trackers.len() == old(self).trackers.len(),
            final(self).events@ == old(self).events@,
            tuning.wf() && old(self).wf() ==> final(self).wf(),
    {
        proof {
            reveal(WorldModel::after_physics);
        }
        apply_intent(tuning, &mut self.tops);
        integrate_physics(tuning, &mut self.tops);
        integrate_projectiles(tuning, &mut self.projectiles);
        spin_drain(tuning, &mut self.tops);
        tick_control_state(tuning, &mut self.tops);
        tick_melee_trackers(tuning, &mut self.trackers);
        assert(self@.tops =~= old(self)@.after_physics(tuning).tops);
        assert(self@.projectiles =~= old(self)@.after_physics(tuning).projectiles);
        assert(self@.cooldowns =~= old(self)@.after_physics(tuning).cooldowns);
    }

    /// The wall phase: the arena wall, then the solid obstacles.
    pub fn run_walls(&mut self, tuning: &Tuning)
        ensures
            final(self)@ == old(self)@.after_walls(tuning),
            final(self).tops.len() == old(self).tops.len(),
            final(self).trackers.len() == old(self).trackers.len(),
            old(self).wf() ==> final(self).wf(),
            events_wf(old(self).events@) ==> events_wf(final(self).events@),
    {
        proof {
            reveal(WorldModel::after_walls);
        }
        wall_reflection(tuning, self.arena_radius, &mut self.tops, &mut self.events);
        static_obstacle_bounce(&mut self.tops, &self.obstacles);
        assert(self@.tops =~= old(self)@.after_walls(tuning).tops);
    }

    /// Collision detection.
    pub fn run_detection(&mut self, tuning: &Tuning)
        ensures
            final(self)@ == old(self)@.after_detection(tuning),
            final(self).tops.len() == old(self).tops.len(),
            final(self).trackers.len() == old(self).trackers.len(),
            old(self).wf() ==> final(self).wf(),
            events_wf(old(self).events@) ==> events_wf(final(self).events@),
    {
        proof {
            reveal(WorldModel::after_detection);
        }
        detect_collisions(
            tuning,
            &self.tops,
            &self.obstacles,
            &self.projectiles,
            &mut self.collisions,
            &mut self.events,
        );
    }

    /// Event generation: collision damage, melee hits, ranged fire.
    pub fn run_generation(&mut self, tuning: &Tuning)
        ensures
            final(self)@ == old(self)@.after_generation(tuning),
            final(self).tops.len() == old(self).tops.len(),
            final(self).trackers.len() == old(self).trackers.len(),
            old(self).wf() ==> final(self).wf(),
            old(self).wf() && events_wf(old(self).events@) ==> events_wf(final(self).events@),
    {
        proof {
            reveal(WorldModel::after_generation);
        }
        generate_collision_damage(tuning, &self.collisions, &mut self.events);
        detect_melee_hits(tuning, &self.tops, &mut self.trackers, &mut self.events);
        fire_ranged_weapons(tuning, &mut self.tops, &mut self.events);
        assert(self@.tops =~= old(self)@.after_generation(tuning).tops);
        assert(self@.cooldowns =~= old(self)@.after_generation(tuning).cooldowns);
        assert(self@.events =~= old(self)@.after_generation(tuning).events);
    }

    /// Event application: damage, control effects, momentum exchange,
    /// and the spawns the events ask for.
    pub fn run_application(&mut self, tuning: &Tuning)
        ensures
            final(self)@ == old(self)@.after_application(tuning),
            final(self).tops.len() == old(self).tops.len(),
            final(self).trackers.len() == old(self).trackers.len(),
            old(self).wf() && events_wf(old(self).events@) ==> final(self).wf(),
    {
        proof {
            reveal(WorldModel::after_application);
        }
        apply_damage_events(&self.events, &mut self.tops);
        apply_control_events(&self.events, &mut self.tops);
        resolve_top_collisions(tuning, &self.collisions, &mut self.tops);
        proof {
            lemma_spawned_projectiles(self.events@, self.next_id as int);
        }
        spawn_projectiles(&self.events, &mut self.projectiles, &mut self.next_id);
        proof {
            lemma_spawned_obstacles(self.events@, self.next_id as int, self.now);
        }
        let ghost mid_id = self.next_id;
        spawn_obstacles(&self.events, self.now, &mut self.obstacles, &mut self.next_id);
        proof {
            if old(self).wf() && events_wf(old(self).events@) {
                let shots = spawned_projectiles(old(self).events@, old(self).next_id as int);
                let walls = spawned_obstacles(old(self).events@, mid_id as int, old(self).now);
                assert forall|i: int| 0 <= i < self.projectiles@.len() implies (
                #[trigger] self.projectiles@[i]).id.0 < self.next_id by {
                    assert(mid_id == old(self).next_id + shots.len());
                    assert(self.next_id >= mid_id);
                    assert(self.projectiles@ == old(self).projectiles@ + shots);
                    if i >= old(self).projectiles@.len() {
                        let k = i - old(self).projectiles@.len();
                        assert(self.projectiles@[i] == shots[k]);
                        assert(shots[k].id.0 == old(self).next_id + k);
                    } else {
                        assert(self.projectiles@[i] == old(self).projectiles@[i]);
                        assert(old(self)@.projectiles[i].id.0 < old(self)@.next_id);
                    }
                }
                assert forall|i: int| 0 <= i < self.obstacles@.len() implies (
                #[trigger] self.obstacles@[i]).id.0 < self.next_id by {
                    if i >= old(self).obstacles@.len() {
                        assert(self.obstacles@[i] == walls[i - old(self).obstacles@.len()]);
                    } else {
                        assert(self.obstacles@[i] == old(self).obstacles@[i]);
                    }
                }
                assert forall|i: int| 0 <= i < self.tops@.len() implies (#[trigger] self.tops@[i]).id.0
                    < self.next_id by {
                    assert(self.tops@[i].id == old(self).tops@[i].id);
                }
                assert forall|i: int| 0 <= i < self.zones@.len() implies (#[trigger] self.zones@[i]).id.0
                    < self.next_id by {
                    assert(self.zones@[i] == old(self).zones@[i]);
                }
            }
        }
    }

    /// The lifecycle pass: despawns the projectiles that left the arena,
    /// the obstacles and projectiles whose time is up, and what the events
    /// of the tick asked to despawn. Returns the identities it despawned.
    pub fn cleanup(&mut self) -> (despawned: Vec<EntityId>)
        ensures
            final(self)@ == old(self)@.after_cleanup(),
            final(self).tops.len() == old(self).tops.len(),
            final(self).trackers.len() == old(self).trackers.len(),
            despawned@ == old(self)@.cleanup_signal(),
            old(self).wf() ==> final(self).wf(),
    {
        proof {
            reveal(WorldModel::after_cleanup);
        }
        proof {
            let inside = self.projectiles@.filter(inside_arena_pred(self.arena_radius));
            let alive = inside.filter(projectile_live_pred());
            lemma_filter_members(self.projectiles@, inside_arena_pred(self.arena_radius));
            lemma_filter_members(inside, projectile_live_pred());
            lemma_filter_members(alive, projectile_unrequested_pred(self.events@));
            let standing = self.obstacles@.filter(obstacle_live_pred(self.now));
            lemma_filter_members(self.obstacles@, obstacle_live_pred(self.now));
            lemma_filter_members(standing, obstacle_unrequested_pred(self.events@));
        }
        let mut despawned = despawn_projectiles_outside_arena(
            self.arena_radius,
            &mut self.projectiles,
        );
        let mut expired = cleanup_ttl(self.now, &mut self.obstacles, &mut self.projectiles);
        let mut requested = handle_despawn_events(
            &self.events,
            &mut self.projectiles,
            &mut self.obstacles,
        );
        despawned.append(&mut expired);
        despawned.append(&mut requested);
        despawned
    }

    /// Advances the clock by one tick.
    pub fn advance_clock(&mut self, tuning: &Tuning)
        ensures
            final(self)@ == old(self)@.after_clock(tuning),
            final(self).tops.len() == old(self).tops.len(),
            final(self).trackers.len() == old(self).trackers.len(),
            old(self).wf() ==> final(self).wf(),
    {
        proof {
            reveal(WorldModel::after_clock);
        }
        self.now = self.now.add(tuning.dt);
        if self.tick.0 < u64::MAX {
            self.tick = self.tick.next();
        }
        proof {
            if old(self).wf() {
                assert(self@.tops == old(self)@.tops);
                assert(self@.projectiles == old(self)@.projectiles);
                assert(self@.obstacles == old(self)@.obstacles);
                assert(self@.zones == old(self)@.zones);
                assert(self@.next_id == old(self)@.next_id);
                assert(self@.ids_fresh());
            }
        }
    }

    /// Queues an event for the coming tick. It is applied in that tick's
    /// application phase, after the events the tick generates itself.
    pub fn queue_event(&mut self, event: GameEvent)
        ensures
            final(self)@ == (WorldModel {
                pending: old(self)@.pending.push(event),
                ..old(self)@
            }),
            old(self).wf() && (event matches GameEvent::ApplyControl { control, .. }
                ==> control.wf()) ==> final(self).wf(),
    {
        self.pending.push(event);
    }

    /// Advances the world by one tick. The queues of the last tick are
    /// emptied and the events the host has queued come first; then the
    /// phases run in their order: zones, physics,
    /// walls, collision detection, event generation (after which the
    /// events pass through the part hooks), event application, cleanup,
    /// clock. Afterwards `events` and `collisions` hold what the
    /// tick queued.
    ///
    /// A well-formed world under a well-formed tuning stays well-formed:
    /// after every tick every top has its spin within `[0, max]` and its
    /// speed at most its move speed.
    pub fn step(&mut self, tuning: &Tuning)
        ensures
            final(self)@ == old(self)@.stepped(tuning),
            final(self).tops.len() == old(self).tops.len(),
            final(self).trackers.len() == old(self).trackers.len(),
            tuning.wf() && old(self).wf() ==> final(self).wf(),
    {
        proof {
            reveal(WorldModel::stepped);
        }
        self.events.clear();
        self.events.append(&mut self.pending);
        self.collisions.clear();
        assert(self@.events =~= old(self)@.pending);
        assert(self@ == old(self)@.cleared());
        self.run_zones(tuning);
        self.run_physics(tuning);
        self.run_walls(tuning);
        self.run_detection(tuning);
        self.run_generation(tuning);
        process_hooks(&mut self.events);
        self.run_application(tuning);
        let _ = self.cleanup();
        self.advance_clock(tuning);
    }
}

impl World {
    /// Advances the world by `ticks` ticks, one after the other.
    ///
    /// The invariant holds after every number of ticks: in a world that
    /// starts well-formed, under a well-formed tuning, every top has its
    /// spin within `[0, max]` and its speed at most its move speed.
    pub fn run_ticks(&mut self, tuning: &Tuning, ticks: u32)
        ensures
            final(self)@ == old(self)@.stepped_times(tuning, ticks as nat),
            final(self).tops.len() == old(self).tops.len(),
            final(self).trackers.len() == old(self).trackers.len(),
            tuning.wf() && old(self).wf() ==> final(self).wf(),
    {
        let mut done: u32 = 0;
        while done < ticks
            invariant
                done <= ticks,
                self@ == old(self)@.stepped_times(tuning, done as nat),
                self.tops.len() == old(self).tops.len(),
                self.trackers.len() == old(self).trackers.len(),
                tuning.wf() && old(self).wf() ==> self.wf(),
            decreases ticks - done,
        {
            self.step(tuning);
            done += 1;
        }
    }
}

/// Idempotence of cleanup: a second lifecycle pass in the same tick, on
/// the world the first one left, changes nothing and despawns nothing. An
/// entity that is gone is not despawned again.
pub proof fn lemma_cleanup_idempotent(w: WorldModel)
    ensures
        w.after_cleanup().after_cleanup() == w.after_cleanup(),
        w.after_cleanup().cleanup_signal() == Seq::<EntityId>::empty(),
{
    reveal(WorldModel::after_cleanup);
    let inside = inside_arena_pred(w.arena_radius);
    let outside = crate::arena::circle::outside_arena_pred(w.arena_radius);
    let live_p = projectile_live_pred();
    let dead_p = crate::arena::obstacle::projectile_expired_pred();
    let free_p = projectile_unrequested_pred(w.events);
    let asked_p = crate::arena::obstacle::projectile_requested_pred(w.events);
    let live_o = obstacle_live_pred(w.now);
    let dead_o = crate::arena::obstacle::obstacle_expired_pred(w.now);
    let free_o = obstacle_unrequested_pred(w.events);
    let asked_o = crate::arena::obstacle::obstacle_requested_pred(w.events);

    let shots_inside = w.projectiles.filter(inside);
    let shots_alive = shots_inside.filter(live_p);
    let shots_kept = shots_alive.filter(free_p);
    lemma_filter_members(w.projectiles, inside);
    lemma_filter_members(shots_inside, live_p);
    lemma_filter_members(shots_alive, free_p);
    assert forall|i: int| 0 <= i < shots_kept.len() implies inside(#[trigger] shots_kept[i])
        && live_p(shots_kept[i]) && free_p(shots_kept[i]) by {
        assert(shots_alive.contains(shots_kept[i]));
        let k = choose|k: int| 0 <= k < shots_alive.len() && shots_alive[k] == shots_kept[i];
        assert(shots_inside.contains(shots_alive[k]));
        let j = choose|j: int| 0 <= j < shots_inside.len() && shots_inside[j] == shots_alive[k];
        assert(inside(shots_inside[j]));
    }
    lemma_filter_all(shots_kept, inside);
    lemma_filter_all(shots_kept, live_p);
    lemma_filter_all(shots_kept, free_p);
    lemma_filter_none(shots_kept, outside);
    lemma_filter_none(shots_kept, dead_p);
    lemma_filter_none(shots_kept, asked_p);

    let walls_alive = w.obstacles.filter(live_o);
    let walls_kept = walls_alive.filter(free_o);
    lemma_filter_members(w.obstacles, live_o);
    lemma_filter_members(walls_alive, free_o);
    assert forall|i: int| 0 <= i < walls_kept.len() implies live_o(#[trigger] walls_kept[i])
        && free_o(walls_kept[i]) by {
        assert(walls_alive.contains(walls_kept[i]));
        let k = choose|k: int| 0 <= k < walls_alive.len() && walls_alive[k] == walls_kept[i];
        assert(live_o(walls_alive[k]));
    }
    lemma_filter_all(walls_kept, live_o);
    lemma_filter_all(walls_kept, free_o);
    lemma_filter_none(walls_kept, dead_o);
    lemma_filter_none(walls_kept, asked_o);

    let once = w.after_cleanup();
    assert(once.projectiles == shots_kept);
    assert(once.obstacles == walls_kept);
    assert(once.cleanup_signal() =~= Seq::<EntityId>::empty());
}

} // verus!
