use cyber_top::components::{GamePhase, LaunchAim, RangedFireTimer};
use cyber_top::config::tuning::Tuning;
use cyber_top::entity::{EntityId, ObstacleEntity, ProjectileEntity, TopEntity, ZoneKind};
use cyber_top::events::{GameEvent, StatusEffectData, StatusEffectKind};
use cyber_top::fixed::Fixed;
use cyber_top::intent::Intent;
use cyber_top::map::{MapItem, MapPlacement, MapSpec};
use cyber_top::parts::registry::PartRegistry;
use cyber_top::parts::weapon_wheel::{MeleeSpec, RangedSpec};
use cyber_top::parts::Build;
use cyber_top::stats::effective::EffectiveStats;
use cyber_top::stats::types::{
    AngleRad, CollisionBehavior, ControlEffect, DamageKind, MetersPerSec, Radius, Seconds, SpinHp,
    Tick,
};
use cyber_top::vector::Vec2;
use cyber_top::world::World;

fn wv(x: i64, y: i64) -> Vec2 {
    Vec2::new(Fixed(x), Fixed(y))
}

fn world_stats(radius: i64, move_speed: i64) -> EffectiveStats {
    let mut stats = EffectiveStats::default();
    stats.radius = Radius(Fixed(radius));
    stats.move_speed = MetersPerSec(Fixed(move_speed));
    stats
}

fn assert_invariants(world: &World) {
    assert_eq!(world.trackers.len(), world.tops.len());
    for t in &world.tops {
        assert!(t.spin_hp.0 .0 >= 0, "spin below zero: {:?}", t.spin_hp);
        assert!(t.spin_hp.0 .0 <= t.stats.spin_hp_max.0 .0, "spin above max: {:?}", t.spin_hp);
        let max = t.stats.move_speed.0 .0 as u128;
        assert!(t.velocity.norm_sq_wide() <= max * max, "too fast: {:?}", t.velocity);
        assert!(t.rotation.0 .0 >= 0 && t.rotation.0 .0 < 6_283_185);
        assert!(t.control.stun_remaining.0 .0 >= 0);
        assert!(t.control.slow_remaining.0 .0 >= 0);
    }
}

#[test]
fn new_world_is_empty() {
    let w = World::new(Fixed(12_000_000));
    assert!(w.tops.is_empty() && w.trackers.is_empty() && w.projectiles.is_empty());
    assert!(w.obstacles.is_empty() && w.zones.is_empty() && w.events.is_empty());
    assert_eq!(w.arena_radius, Fixed(12_000_000));
    assert_eq!(w.now, Fixed(0));
    assert_eq!(w.tick, Tick(0));
    assert_eq!(w.next_id, 0);
    assert!(!w.check_game_over());
    assert_eq!(GamePhase::default(), GamePhase::MainMenu);
    assert_eq!(LaunchAim::default(), LaunchAim { angle: Fixed(0), confirmed: false });
    assert_eq!(RangedFireTimer::default(), RangedFireTimer(Fixed(0)));
}

#[test]
fn tops_are_spawned_under_fresh_identities() {
    let mut w = World::new(Fixed(12_000_000));
    let a = w.spawn_top(
        wv(-3_000_000, 0),
        AngleRad(Fixed(0)),
        world_stats(500_000, 5_000_000),
        Some(MeleeSpec::default()),
        None,
        Fixed::one(),
    );
    let b = w.spawn_build(
        wv(3_000_000, 0),
        AngleRad(Fixed(3_141_593)),
        &Build::default(),
        &Tuning::default(),
    );
    assert_eq!(a, Some(EntityId(0)));
    assert_eq!(b, Some(EntityId(1)));
    assert_eq!(w.next_id, 2);
    assert_eq!(w.tops.len(), 2);
    assert_eq!(w.trackers.len(), 2);
    let second = w.top(EntityId(1)).unwrap();
    assert_eq!(second.position, wv(3_000_000, 0));
    assert_eq!(second.stats.radius, Radius(Fixed(1_300_000)));
    assert_eq!(second.stats.move_speed, MetersPerSec(Fixed(10_000_000)));
    assert_eq!(second.spin_hp, SpinHp(Fixed(100_000_000)));
    assert_eq!(second.melee, Some(MeleeSpec::default()));
    assert_eq!(second.ranged, None);
    assert_eq!(w.top(EntityId(2)), None);
    w.next_id = u64::MAX;
    let none = w.spawn_top(
        wv(0, 0),
        AngleRad(Fixed(0)),
        world_stats(500_000, 5_000_000),
        None,
        None,
        Fixed::one(),
    );
    assert_eq!(none, None);
    assert_eq!(w.tops.len(), 2);
}

#[test]
fn map_placements_become_obstacles_and_zones() {
    let mut w = World::new(Fixed(1_000_000));
    let map = MapSpec {
        id: "m".to_string(),
        name: "M".to_string(),
        arena_radius: Fixed(8_000_000),
        placements: vec![
            MapPlacement { grid_x: 2, grid_y: 0, item: MapItem::Obstacle },
            MapPlacement { grid_x: -2, grid_y: 4, item: MapItem::GravityDevice },
            MapPlacement { grid_x: 0, grid_y: 6, item: MapItem::SpeedBoost },
            MapPlacement { grid_x: 0, grid_y: -6, item: MapItem::DamageBoost },
        ],
    };
    w.place_map(&map);
    assert_eq!(w.arena_radius, Fixed(8_000_000));
    assert_eq!(
        w.obstacles,
        vec![ObstacleEntity {
            id: EntityId(0),
            position: wv(1_000_000, 0),
            radius: Fixed(250_000),
            behavior: CollisionBehavior::DamageOnHit,
            owner: None,
            expires_at: None,
            solid: true,
        }]
    );
    assert_eq!(w.zones.len(), 3);
    assert_eq!(w.zones[0].id, EntityId(1));
    assert_eq!(w.zones[0].position, wv(-1_000_000, 2_000_000));
    assert_eq!(w.zones[0].radius, Fixed(250_000));
    match w.zones[0].kind {
        ZoneKind::Gravity(g) => assert_eq!(g.radius, Fixed(3_000_000)),
        _ => panic!("expected gravity"),
    }
    match w.zones[1].kind {
        ZoneKind::SpeedBoost(z) => {
            assert_eq!(z.multiplier, Fixed(1_500_000));
            assert_eq!(z.duration, Fixed(3_000_000));
        }
        _ => panic!("expected speed boost"),
    }
    match w.zones[2].kind {
        ZoneKind::DamageBoost(z) => assert_eq!(z.multiplier, Fixed(1_500_000)),
        _ => panic!("expected damage boost"),
    }
    assert_eq!(w.next_id, 4);
}

#[test]
fn launch_sets_the_velocity_along_the_aim() {
    let mut w = World::new(Fixed(12_000_000));
    let id = w
        .spawn_top(
            wv(0, 0),
            AngleRad(Fixed(0)),
            world_stats(500_000, 5_000_000),
            None,
            None,
            Fixed::one(),
        )
        .unwrap();
    assert!(w.launch_top(id, AngleRad(Fixed(1_570_796))));
    assert_eq!(w.tops[0].velocity, wv(0, 5_000_000));
    assert!(w.launch_top(id, AngleRad(Fixed(1_000_000))));
    assert_eq!(w.tops[0].velocity, wv(2_701_505, 4_207_355));
    assert!(!w.launch_top(EntityId(9), AngleRad(Fixed(0))));
    assert!(w.set_intent(id, Intent { move_dir: wv(1, 0), fire: true }));
    assert_eq!(w.tops[0].intent, Intent { move_dir: wv(1, 0), fire: true });
    assert!(!w.set_intent(EntityId(9), Intent::default()));
    assert_invariants(&w);
}

#[test]
fn the_battle_is_over_when_a_top_has_no_spin() {
    let mut w = World::new(Fixed(12_000_000));
    for _ in 0..2 {
        w.spawn_top(
            wv(0, 0),
            AngleRad(Fixed(0)),
            world_stats(500_000, 5_000_000),
            None,
            None,
            Fixed::one(),
        );
    }
    assert!(!w.check_game_over());
    w.tops[1].spin_hp = SpinHp(Fixed(0));
    assert!(w.check_game_over());
    // Defeat does not remove the top.
    w.step(&Tuning::default());
    assert_eq!(w.tops.len(), 2);
}

#[test]
fn one_tick_runs_the_phases_in_order() {
    let tuning = Tuning::default();
    let mut w = World::new(Fixed(12_000_000));
    let a = w
        .spawn_top(
            wv(-900_000, 0),
            AngleRad(Fixed(0)),
            world_stats(1_000_000, 10_000_000),
            None,
            None,
            Fixed::one(),
        )
        .unwrap();
    let b = w
        .spawn_top(
            wv(900_000, 0),
            AngleRad(Fixed(3_141_593)),
            world_stats(1_000_000, 10_000_000),
            None,
            None,
            Fixed::one(),
        )
        .unwrap();
    w.tops[0].velocity = wv(5_000_000, 0);
    w.tops[1].velocity = wv(-5_000_000, 0);
    w.events.push(GameEvent::DespawnEntity { entity: EntityId(77) });
    w.step(&tuning);
    // Physics first: both tops move 5 × dt toward each other.
    // Then detection sees them approach at 10, generation queues k × 10 for
    // each, application deals it and swaps the velocities.
    assert_eq!(w.collisions.len(), 1);
    assert_eq!(w.collisions[0].a, a);
    assert_eq!(w.collisions[0].b, b);
    assert_eq!(w.collisions[0].impulse, Fixed(10_000_000));
    assert_eq!(
        w.events,
        vec![
            GameEvent::DealDamage {
                src: Some(a),
                dst: b,
                amount: Fixed(5_000_000),
                kind: DamageKind::Collision
            },
            GameEvent::DealDamage {
                src: Some(b),
                dst: a,
                amount: Fixed(5_000_000),
                kind: DamageKind::Collision
            },
        ]
    );
    // Idle drain 0.003333 and collision damage 5.
    assert_eq!(w.tops[0].spin_hp, SpinHp(Fixed(94_996_667)));
    assert_eq!(w.tops[1].spin_hp, SpinHp(Fixed(94_996_667)));
    assert_eq!(w.tops[0].velocity, wv(-5_000_000, 0));
    assert_eq!(w.tops[1].velocity, wv(5_000_000, 0));
    // Moved to ∓0.816665, then pushed apart by half the overlap each.
    assert_eq!(w.tops[0].position, wv(-1_000_000, 0));
    assert_eq!(w.tops[1].position, wv(1_000_000, 0));
    assert_eq!(w.now, Fixed(16_667));
    assert_eq!(w.tick, Tick(1));
    assert_invariants(&w);
    // The next tick starts with empty queues; the tops now recede.
    w.step(&tuning);
    assert!(w.collisions.is_empty());
    assert!(w.events.is_empty());
    assert_eq!(w.tick, Tick(2));
}

#[test]
fn a_shot_is_spawned_flies_hits_and_is_despawned() {
    let tuning = Tuning::default();
    let mut w = World::new(Fixed(12_000_000));
    let shooter = w
        .spawn_top(
            wv(0, 0),
            AngleRad(Fixed(0)),
            world_stats(500_000, 5_000_000),
            None,
            Some(RangedSpec::default()),
            Fixed(0),
        )
        .unwrap();
    let target = w
        .spawn_top(
            wv(3_000_000, 0),
            AngleRad(Fixed(0)),
            world_stats(500_000, 5_000_000),
            None,
            None,
            Fixed(0),
        )
        .unwrap();
    w.step(&tuning);
    assert_eq!(w.projectiles.len(), 1);
    let shot = w.projectiles[0];
    assert_eq!(shot.id, EntityId(2));
    assert_eq!(shot.owner, shooter);
    assert_eq!(shot.position, wv(500_000, 0));
    assert_eq!(shot.velocity, wv(15_000_000, 0));
    let mut hit_tick = None;
    for tick in 2..=20 {
        w.step(&tuning);
        assert_invariants(&w);
        if w.events.iter().any(|e| matches!(e, GameEvent::DealDamage { kind: DamageKind::Projectile, .. })) {
            hit_tick = Some(tick);
            assert!(w.events.contains(&GameEvent::DealDamage {
                src: Some(shooter),
                dst: target,
                amount: Fixed(7_000_000),
                kind: DamageKind::Projectile,
            }));
            assert!(w.events.contains(&GameEvent::DespawnEntity { entity: EntityId(2) }));
            // Despawned in the cleanup of the same tick.
            assert!(w.projectiles.iter().all(|p| p.id != EntityId(2)));
            break;
        }
    }
    // 0.5 + 0.25 × n > 3 − 0.8 first holds for n = 7 moves after the spawn.
    assert_eq!(hit_tick, Some(8));
    let hp = w.top(target).unwrap().spin_hp.0 .0;
    assert!(hp < 93_000_000 && hp > 92_900_000);
}

#[test]
fn cleanup_pass_is_idempotent_on_the_world() {
    let mut w = World::new(Fixed(12_000_000));
    w.now = Fixed(5_000_000);
    let p = |id: u64, x: i64, life: i64| ProjectileEntity {
        id: EntityId(id),
        position: wv(x, 0),
        velocity: wv(0, 0),
        radius: Fixed(300_000),
        damage: Fixed(1),
        owner: EntityId(0),
        lifetime: Seconds(Fixed(life)),
    };
    let o = |id: u64, expires: Option<i64>| ObstacleEntity {
        id: EntityId(id),
        position: wv(0, 0),
        radius: Fixed(250_000),
        behavior: CollisionBehavior::Solid,
        owner: None,
        expires_at: expires.map(Fixed),
        solid: false,
    };
    w.projectiles = vec![p(1, 0, 0), p(2, 20_000_000, 5), p(3, 0, 5), p(4, 0, 5)];
    w.obstacles = vec![o(5, Some(4_000_000)), o(6, None), o(7, Some(9_000_000))];
    w.events = vec![
        GameEvent::DespawnEntity { entity: EntityId(4) },
        GameEvent::DespawnEntity { entity: EntityId(7) },
    ];
    let first = w.cleanup();
    assert_eq!(
        first,
        vec![EntityId(2), EntityId(5), EntityId(1), EntityId(4), EntityId(7)]
    );
    assert_eq!(w.projectiles.iter().map(|p| p.id.0).collect::<Vec<_>>(), vec![3]);
    assert_eq!(w.obstacles.iter().map(|o| o.id.0).collect::<Vec<_>>(), vec![6]);
    let projectiles_once = w.projectiles.clone();
    let obstacles_once = w.obstacles.clone();
    let second = w.cleanup();
    assert!(second.is_empty());
    assert_eq!(w.projectiles, projectiles_once);
    assert_eq!(w.obstacles, obstacles_once);
}

#[test]
fn invariants_hold_through_a_long_battle() {
    let tuning = Tuning::default();
    let reg = PartRegistry::with_defaults();
    let blade = reg.resolve_ref(reg.builds.get(&"default_blade".to_string()).unwrap()).unwrap();
    let mut blaster =
        reg.resolve_ref(reg.builds.get(&"default_blaster".to_string()).unwrap()).unwrap();
    blaster.weapon.ranged = Some(RangedSpec {
        burst_count: 3,
        spread_angle: Fixed(500_000),
        ..RangedSpec::default()
    });
    let mut stunner = Build::default();
    stunner.weapon.melee = Some(MeleeSpec {
        hit_control: Some(ControlEffect::Slow {
            duration: Seconds(Fixed(1_000_000)),
            ratio: Fixed(600_000),
        }),
        ..MeleeSpec::default()
    });
    let mut w = World::new(tuning.arena_radius);
    w.place_map(&MapSpec {
        id: "m".to_string(),
        name: "M".to_string(),
        arena_radius: Fixed(9_000_000),
        placements: vec![
            MapPlacement { grid_x: 4, grid_y: 4, item: MapItem::Obstacle },
            MapPlacement { grid_x: -6, grid_y: 2, item: MapItem::GravityDevice },
            MapPlacement { grid_x: 0, grid_y: -5, item: MapItem::SpeedBoost },
            MapPlacement { grid_x: 3, grid_y: 0, item: MapItem::DamageBoost },
            MapPlacement { grid_x: -3, grid_y: -3, item: MapItem::Obstacle },
        ],
    });
    let a = w.spawn_build(wv(-3_000_000, 0), AngleRad(Fixed(0)), &blade, &tuning).unwrap();
    let b = w.spawn_build(wv(3_000_000, 0), AngleRad(Fixed(3_141_593)), &blaster, &tuning).unwrap();
    let c = w.spawn_build(wv(0, 4_000_000), AngleRad(Fixed(4_712_389)), &stunner, &tuning).unwrap();
    assert!(w.launch_top(a, AngleRad(Fixed(300_000))));
    assert!(w.launch_top(b, AngleRad(Fixed(2_900_000))));
    assert!(w.launch_top(c, AngleRad(Fixed(4_500_000))));
    assert_invariants(&w);
    let mut kinds = std::collections::HashSet::new();
    let mut last_spin: Vec<i64> = w.tops.iter().map(|t| t.spin_hp.0 .0).collect();
    let mut seen_ids: Vec<u64> = Vec::new();
    for tick in 0..1800u64 {
        let dir = match (tick / 90) % 4 {
            0 => wv(1_000_000, 0),
            1 => wv(0, 1_000_000),
            2 => wv(-1_000_000, 0),
            _ => wv(0, -1_000_000),
        };
        w.set_intent(a, Intent { move_dir: dir, fire: true });
        w.set_intent(c, Intent { move_dir: dir.neg(), fire: false });
        w.step(&tuning);
        assert_invariants(&w);
        assert_eq!(w.tick, Tick(tick + 1));
        for (i, t) in w.tops.iter().enumerate() {
            assert!(t.spin_hp.0 .0 <= last_spin[i], "spin never grows");
            last_spin[i] = t.spin_hp.0 .0;
        }
        for e in &w.events {
            match e {
                GameEvent::DealDamage { kind, .. } => {
                    kinds.insert(*kind);
                }
                _ => {}
            }
        }
        for p in &w.projectiles {
            if !seen_ids.contains(&p.id.0) {
                assert!(seen_ids.iter().all(|&old| old < p.id.0), "identities only count up");
                seen_ids.push(p.id.0);
            }
            assert!(p.lifetime.0 .0 > 0);
            assert!(p.position.length().0 <= 9_000_000 + p.radius.0);
        }
    }
    assert!(kinds.contains(&DamageKind::Wall));
    assert!(!seen_ids.is_empty());
    assert!(last_spin.iter().all(|&hp| hp < 100_000_000));
}

fn small_duel(tuning: &Tuning) -> World {
    let mut w = World::new(Fixed(6_000_000));
    w.spawn_build(wv(-2_000_000, 0), AngleRad(Fixed(0)), &Build::default(), tuning);
    w.spawn_build(wv(2_000_000, 500_000), AngleRad(Fixed(3_141_593)), &Build::default(), tuning);
    w.launch_top(EntityId(0), AngleRad(Fixed(100_000)));
    w.launch_top(EntityId(1), AngleRad(Fixed(3_000_000)));
    w
}

#[test]
fn many_ticks_are_one_tick_many_times() {
    let tuning = Tuning::default();
    let mut a = small_duel(&tuning);
    let mut b = small_duel(&tuning);
    a.run_ticks(&tuning, 240);
    for _ in 0..240 {
        b.step(&tuning);
    }
    assert_eq!(a.tops, b.tops);
    assert_eq!(a.tick, Tick(240));
    assert_eq!(a.now, b.now);
    assert_eq!(a.events, b.events);
    assert_invariants(&a);
    let before = a.tops.clone();
    a.run_ticks(&tuning, 0);
    assert_eq!(a.tops, before);
}

#[test]
fn queued_events_are_applied_in_the_coming_tick() {
    let tuning = Tuning::default();
    let mut w = World::new(Fixed(12_000_000));
    let id = w
        .spawn_top(
            wv(0, 0),
            AngleRad(Fixed(0)),
            world_stats(500_000, 5_000_000),
            None,
            None,
            Fixed::one(),
        )
        .unwrap();
    let wall = GameEvent::SpawnObstacle {
        src: Some(id),
        position: wv(4_000_000, 0),
        radius: Fixed(300_000),
        ttl: Fixed(30_000),
        behavior: CollisionBehavior::Solid,
    };
    let stun = GameEvent::ApplyControl {
        src: None,
        dst: id,
        control: ControlEffect::Stun { duration: Seconds(Fixed(1_000_000)) },
    };
    w.queue_event(wall);
    w.queue_event(stun);
    assert_eq!(w.pending, vec![wall, stun]);
    w.step(&tuning);
    assert!(w.pending.is_empty());
    assert_eq!(w.events, vec![wall, stun]);
    assert_eq!(w.obstacles.len(), 1);
    assert_eq!(w.obstacles[0].id, EntityId(1));
    assert_eq!(w.obstacles[0].expires_at, Some(Fixed(30_000)));
    assert_eq!(w.top(id).unwrap().control.stun_remaining, Seconds(Fixed(1_000_000)));
    // The obstacle lasts 0.03 s: it is there after two ticks and gone
    // after the third, and its identity is not given out again.
    w.step(&tuning);
    assert!(w.events.is_empty());
    assert_eq!(w.obstacles.len(), 1);
    w.step(&tuning);
    assert!(w.obstacles.is_empty());
    w.queue_event(wall);
    w.step(&tuning);
    assert_eq!(w.obstacles[0].id, EntityId(2));
    assert_invariants(&w);
}

#[test]
fn status_events_are_carried_but_change_no_top() {
    let tuning = Tuning::default();
    let mut w = World::new(Fixed(12_000_000));
    let id = w
        .spawn_top(
            wv(0, 0),
            AngleRad(Fixed(0)),
            world_stats(500_000, 5_000_000),
            None,
            None,
            Fixed::one(),
        )
        .unwrap();
    let before: TopEntity = w.tops[0];
    let status = GameEvent::ApplyStatus {
        src: None,
        dst: id,
        status: StatusEffectData {
            kind: StatusEffectKind::SpeedBuff,
            duration: Fixed(1_000_000),
            magnitude: Fixed(2_000_000),
        },
    };
    w.events.push(status);
    w.run_application(&tuning);
    assert_eq!(w.tops[0], before);
    assert_eq!(w.events, vec![status]);
}
