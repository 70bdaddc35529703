use cyber_top::collision::{detect_collisions, obstacle_hit, projectile_strikes, top_contact};
use cyber_top::combat::{
    apply_control_events, apply_damage_events, contact_damage, generate_collision_damage,
    resolve_top_collisions, resolved_pair,
};
use cyber_top::components::MeleeHitTracker;
use cyber_top::config::tuning::Tuning;
use cyber_top::entity::{EntityId, ObstacleEntity, ProjectileEntity, TopEntity};
use cyber_top::events::{CollisionMessage, GameEvent};
use cyber_top::fixed::Fixed;
use cyber_top::hooks::process_hooks;
use cyber_top::parts::weapon_wheel::{MeleeSpec, RangedSpec};
use cyber_top::stats::effective::EffectiveStats;
use cyber_top::stats::types::{
    AngleRad, CollisionBehavior, ControlEffect, DamageKind, MetersPerSec, Multiplier, Radius,
    Seconds, SpinHp,
};
use cyber_top::vector::Vec2;
use cyber_top::weapons::{detect_melee_hits, fire_ranged_weapons, in_arc};

fn cv(x: i64, y: i64) -> Vec2 {
    Vec2::new(Fixed(x), Fixed(y))
}

fn combat_top(id: u64, pos: Vec2, vel: Vec2, radius: i64) -> TopEntity {
    let mut stats = EffectiveStats::default();
    stats.radius = Radius(Fixed(radius));
    stats.move_speed = MetersPerSec(Fixed(10_000_000));
    let mut t =
        TopEntity::spawn(EntityId(id), pos, AngleRad(Fixed(0)), stats, None, None, Fixed::one());
    t.velocity = vel;
    t
}

fn damage(src: Option<u64>, dst: u64, amount: i64, kind: DamageKind) -> GameEvent {
    GameEvent::DealDamage { src: src.map(EntityId), dst: EntityId(dst), amount: Fixed(amount), kind }
}

#[test]
fn head_on_collision_example() {
    // Radius 1, at (−0.5, 0) and (0.5, 0), velocities (5, 0) and (−5, 0):
    // normal (1, 0), impulse 10, each takes k × 10.
    let a = combat_top(1, cv(-500_000, 0), cv(5_000_000, 0), 1_000_000);
    let b = combat_top(2, cv(500_000, 0), cv(-5_000_000, 0), 1_000_000);
    let contact = top_contact(a, b);
    assert_eq!(
        contact,
        Some(CollisionMessage {
            a: EntityId(1),
            b: EntityId(2),
            impulse: Fixed(10_000_000),
            normal: cv(1_000_000, 0),
        })
    );
    let tuning = Tuning::default();
    let mut events = Vec::new();
    generate_collision_damage(&tuning, &vec![contact.unwrap()], &mut events);
    assert_eq!(
        events,
        vec![
            damage(Some(1), 2, 5_000_000, DamageKind::Collision),
            damage(Some(2), 1, 5_000_000, DamageKind::Collision),
        ]
    );
    let mut tops = vec![a, b];
    apply_damage_events(&events, &mut tops);
    assert_eq!(tops[0].spin_hp, SpinHp(Fixed(95_000_000)));
    assert_eq!(tops[1].spin_hp, SpinHp(Fixed(95_000_000)));
}

#[test]
fn receding_or_just_touching_tops_make_no_contact() {
    let a = combat_top(1, cv(-500_000, 0), cv(-5_000_000, 0), 1_000_000);
    let b = combat_top(2, cv(500_000, 0), cv(5_000_000, 0), 1_000_000);
    assert_eq!(top_contact(a, b), None);
    // Coasting side by side: no closing speed.
    let c = combat_top(3, cv(-500_000, 0), cv(0, 3_000_000), 1_000_000);
    let d = combat_top(4, cv(500_000, 0), cv(0, 3_000_000), 1_000_000);
    assert_eq!(top_contact(c, d), None);
    // Exactly two radii apart: touching, not overlapping.
    let e = combat_top(5, cv(-1_000_000, 0), cv(5_000_000, 0), 1_000_000);
    let f = combat_top(6, cv(1_000_000, 0), cv(-5_000_000, 0), 1_000_000);
    assert_eq!(top_contact(e, f), None);
    // Centres in one place: no normal, no contact.
    let g = combat_top(7, cv(0, 0), cv(5_000_000, 0), 1_000_000);
    let h = combat_top(8, cv(0, 0), cv(-5_000_000, 0), 1_000_000);
    assert_eq!(top_contact(g, h), None);
}

#[test]
fn collision_damage_is_symmetric() {
    let msg = CollisionMessage {
        a: EntityId(4),
        b: EntityId(9),
        impulse: Fixed(3_300_000),
        normal: cv(0, 1_000_000),
    };
    let (ab, ba) = contact_damage(msg, Fixed(700_000));
    assert_eq!(ab, damage(Some(4), 9, 2_310_000, DamageKind::Collision));
    assert_eq!(ba, damage(Some(9), 4, 2_310_000, DamageKind::Collision));
}

#[test]
fn detection_tests_every_pair_once() {
    let tuning = Tuning::default();
    let a = combat_top(1, cv(0, 0), cv(2_000_000, 0), 1_000_000);
    let b = combat_top(2, cv(1_500_000, 0), cv(0, 0), 1_000_000);
    let c = combat_top(3, cv(3_000_000, 0), cv(-2_000_000, 0), 1_000_000);
    let mut collisions = Vec::new();
    let mut events = Vec::new();
    detect_collisions(
        &tuning,
        &vec![a, b, c],
        &Vec::new(),
        &Vec::new(),
        &mut collisions,
        &mut events,
    );
    assert_eq!(
        collisions,
        vec![
            CollisionMessage {
                a: EntityId(1),
                b: EntityId(2),
                impulse: Fixed(2_000_000),
                normal: cv(1_000_000, 0)
            },
            CollisionMessage {
                a: EntityId(2),
                b: EntityId(3),
                impulse: Fixed(2_000_000),
                normal: cv(1_000_000, 0)
            },
        ]
    );
    assert!(events.is_empty());
}

#[test]
fn damaging_obstacles_hit_every_tick_of_overlap() {
    let tuning = Tuning::default();
    let lava = ObstacleEntity {
        id: EntityId(50),
        position: cv(1_000_000, 0),
        radius: Fixed(250_000),
        behavior: CollisionBehavior::DamageOnHit,
        owner: None,
        expires_at: None,
        solid: false,
    };
    let rock = ObstacleEntity { id: EntityId(51), behavior: CollisionBehavior::Solid, ..lava };
    let t = combat_top(1, cv(500_000, 0), cv(0, 0), 500_000);
    assert_eq!(
        obstacle_hit(t, lava, &tuning),
        Some(damage(Some(50), 1, 2_000_000, DamageKind::Obstacle))
    );
    assert_eq!(obstacle_hit(t, rock, &tuning), None);
    let mut tops = vec![t];
    for tick in 1..=3 {
        let mut collisions = Vec::new();
        let mut events = Vec::new();
        detect_collisions(
            &tuning,
            &tops,
            &vec![rock, lava],
            &Vec::new(),
            &mut collisions,
            &mut events,
        );
        assert_eq!(events, vec![damage(Some(50), 1, 2_000_000, DamageKind::Obstacle)]);
        apply_damage_events(&events, &mut tops);
        assert_eq!(tops[0].spin_hp, SpinHp(Fixed(100_000_000 - 2_000_000 * tick)));
    }
}

#[test]
fn a_projectile_hits_one_top_and_never_its_owner() {
    let tuning = Tuning::default();
    let owner = combat_top(1, cv(0, 0), cv(0, 0), 500_000);
    let first = combat_top(2, cv(200_000, 0), cv(0, 0), 500_000);
    let second = combat_top(3, cv(0, 200_000), cv(0, 0), 500_000);
    let p = ProjectileEntity {
        id: EntityId(30),
        position: cv(100_000, 100_000),
        velocity: cv(0, 0),
        radius: Fixed(300_000),
        damage: Fixed(7_000_000),
        owner: EntityId(1),
        lifetime: Seconds(Fixed(1_000_000)),
    };
    assert!(!projectile_strikes(p, owner));
    assert!(projectile_strikes(p, first));
    assert!(projectile_strikes(p, second));
    let miss = ProjectileEntity { id: EntityId(31), position: cv(9_000_000, 0), ..p };
    let mut collisions = Vec::new();
    let mut events = Vec::new();
    detect_collisions(
        &tuning,
        &vec![owner, first, second],
        &Vec::new(),
        &vec![miss, p],
        &mut collisions,
        &mut events,
    );
    assert_eq!(
        events,
        vec![
            damage(Some(1), 2, 7_000_000, DamageKind::Projectile),
            GameEvent::DespawnEntity { entity: EntityId(30) },
        ]
    );
}

#[test]
fn damage_goes_through_the_multipliers() {
    let mut src = combat_top(1, cv(0, 0), cv(0, 0), 500_000);
    src.stats.damage_out_mult = Multiplier(Fixed(1_500_000));
    src.damage_boost.multiplier = Fixed(1_500_000);
    let mut dst = combat_top(2, cv(5_000_000, 0), cv(0, 0), 500_000);
    dst.stats.damage_in_mult = Multiplier(Fixed(500_000));
    let mut tops = vec![src, dst];
    // 10 × 1.5 × 1.5 × 0.5 = 11.25
    apply_damage_events(&vec![damage(Some(1), 2, 10_000_000, DamageKind::Melee)], &mut tops);
    assert_eq!(tops[1].spin_hp, SpinHp(Fixed(88_750_000)));
    assert_eq!(tops[0].spin_hp, SpinHp(Fixed(100_000_000)));
    // Without a source only the intake multiplier counts.
    apply_damage_events(&vec![damage(None, 2, 10_000_000, DamageKind::Wall)], &mut tops);
    assert_eq!(tops[1].spin_hp, SpinHp(Fixed(83_750_000)));
    // A source that is no top deals the base amount.
    apply_damage_events(&vec![damage(Some(77), 2, 10_000_000, DamageKind::Obstacle)], &mut tops);
    assert_eq!(tops[1].spin_hp, SpinHp(Fixed(78_750_000)));
}

#[test]
fn damage_never_heals_and_never_goes_below_zero() {
    let mut tops = vec![combat_top(1, cv(0, 0), cv(0, 0), 500_000)];
    apply_damage_events(&vec![damage(None, 1, -10_000_000, DamageKind::Wall)], &mut tops);
    assert_eq!(tops[0].spin_hp, SpinHp(Fixed(100_000_000)));
    apply_damage_events(&vec![damage(None, 1, 250_000_000, DamageKind::Wall)], &mut tops);
    assert_eq!(tops[0].spin_hp, SpinHp(Fixed(0)));
    apply_damage_events(&vec![damage(None, 1, 1_000_000, DamageKind::Wall)], &mut tops);
    assert_eq!(tops[0].spin_hp, SpinHp(Fixed(0)));
}

#[test]
fn events_for_entities_that_are_gone_are_dropped() {
    let t = combat_top(1, cv(0, 0), cv(0, 0), 500_000);
    let mut tops = vec![t];
    let events = vec![
        damage(Some(1), 42, 10_000_000, DamageKind::Melee),
        GameEvent::ApplyControl {
            src: None,
            dst: EntityId(42),
            control: ControlEffect::Stun { duration: Seconds(Fixed(1_000_000)) },
        },
        GameEvent::DespawnEntity { entity: EntityId(1) },
    ];
    apply_damage_events(&events, &mut tops);
    apply_control_events(&events, &mut tops);
    assert_eq!(tops, vec![t]);
}

#[test]
fn control_events_use_the_targets_multiplier() {
    let mut t = combat_top(1, cv(0, 0), cv(0, 0), 500_000);
    t.stats.control_multiplier = Fixed(614_000);
    let mut tops = vec![t];
    let stun = GameEvent::ApplyControl {
        src: None,
        dst: EntityId(1),
        control: ControlEffect::Stun { duration: Seconds(Fixed(2_000_000)) },
    };
    apply_control_events(&vec![stun], &mut tops);
    assert_eq!(tops[0].control.stun_remaining, Seconds(Fixed(1_228_000)));
    let slow = GameEvent::ApplyControl {
        src: None,
        dst: EntityId(1),
        control: ControlEffect::Slow { duration: Seconds(Fixed(1_000_000)), ratio: Fixed(400_000) },
    };
    apply_control_events(&vec![slow, stun], &mut tops);
    assert_eq!(tops[0].control.slow_remaining, Seconds(Fixed(614_000)));
    assert_eq!(tops[0].control.slow_ratio, Fixed(400_000));
    assert_eq!(tops[0].control.stun_remaining, Seconds(Fixed(1_228_000)));
}

#[test]
fn a_defeated_top_takes_no_more_control() {
    let mut t = combat_top(1, cv(0, 0), cv(0, 0), 500_000);
    t.spin_hp = SpinHp(Fixed(0));
    let mut tops = vec![t];
    let stun = GameEvent::ApplyControl {
        src: None,
        dst: EntityId(1),
        control: ControlEffect::Stun { duration: Seconds(Fixed(2_000_000)) },
    };
    apply_control_events(&vec![stun], &mut tops);
    assert_eq!(tops[0], t);
}

#[test]
fn knockback_is_an_impulse_away_from_the_source() {
    let src = combat_top(1, cv(0, 0), cv(0, 0), 500_000);
    let dst = combat_top(2, cv(3_000_000, 4_000_000), cv(1_000_000, 0), 500_000);
    let mut tops = vec![src, dst];
    let kb = GameEvent::ApplyControl {
        src: Some(EntityId(1)),
        dst: EntityId(2),
        control: ControlEffect::Knockback { distance: Fixed(5_000_000) },
    };
    apply_control_events(&vec![kb], &mut tops);
    assert_eq!(tops[1].velocity, cv(4_000_000, 4_000_000));
    assert_eq!(tops[1].control, dst.control);
    assert_eq!(tops[1].position, dst.position);
    // Without a source there is no direction and nothing happens.
    let mut tops = vec![src, dst];
    let kb = GameEvent::ApplyControl {
        src: None,
        dst: EntityId(2),
        control: ControlEffect::Knockback { distance: Fixed(5_000_000) },
    };
    apply_control_events(&vec![kb], &mut tops);
    assert_eq!(tops[1], dst);
    // The impulse cannot push the speed beyond the move speed.
    let mut tops = vec![src, dst];
    let kb = GameEvent::ApplyControl {
        src: Some(EntityId(1)),
        dst: EntityId(2),
        control: ControlEffect::Knockback { distance: Fixed(500_000_000) },
    };
    apply_control_events(&vec![kb], &mut tops);
    assert!(tops[1].velocity.norm_sq_wide() <= 10_000_000u128 * 10_000_000u128);
}

#[test]
fn equal_tops_swap_velocities_head_on() {
    let a = combat_top(1, cv(-500_000, 0), cv(5_000_000, 0), 1_000_000);
    let b = combat_top(2, cv(500_000, 0), cv(-5_000_000, 0), 1_000_000);
    let pair = resolved_pair(a, b, cv(1_000_000, 0), Fixed(1_000_000));
    assert_eq!(pair.a.velocity, cv(-5_000_000, 0));
    assert_eq!(pair.b.velocity, cv(5_000_000, 0));
    // Overlap 1, shared half and half.
    assert_eq!(pair.a.position, cv(-1_000_000, 0));
    assert_eq!(pair.b.position, cv(1_000_000, 0));
    assert_eq!(a.inverse_mass(), Fixed(1_000_000));
}

#[test]
fn the_heavier_top_moves_less() {
    let mut a = combat_top(1, cv(-500_000, 0), cv(5_000_000, 0), 1_000_000);
    a.stats.stability = Fixed(1_000_000);
    let b = combat_top(2, cv(500_000, 0), cv(-5_000_000, 0), 1_000_000);
    assert_eq!(a.inverse_mass(), Fixed(500_000));
    let pair = resolved_pair(a, b, cv(1_000_000, 0), Fixed(0));
    // j = 10 / 1.5 = 6.666666; a loses j / 2, b gains j.
    assert_eq!(pair.a.velocity, cv(1_666_667, 0));
    assert_eq!(pair.b.velocity, cv(1_666_666, 0));
    assert_eq!(pair.a.position, cv(-833_333, 0));
    assert_eq!(pair.b.position, cv(1_166_666, 0));
}

#[test]
fn tops_that_no_longer_approach_are_left_alone() {
    let a = combat_top(1, cv(-500_000, 0), cv(-5_000_000, 0), 1_000_000);
    let b = combat_top(2, cv(500_000, 0), cv(5_000_000, 0), 1_000_000);
    let pair = resolved_pair(a, b, cv(1_000_000, 0), Fixed(1_000_000));
    assert_eq!(pair.a, a);
    assert_eq!(pair.b, b);
}

#[test]
fn resolution_needs_two_different_tops() {
    let tuning = Tuning::default();
    let a = combat_top(1, cv(-500_000, 0), cv(5_000_000, 0), 1_000_000);
    let b = combat_top(2, cv(500_000, 0), cv(-5_000_000, 0), 1_000_000);
    let msg = |x: u64, y: u64| CollisionMessage {
        a: EntityId(x),
        b: EntityId(y),
        impulse: Fixed(10_000_000),
        normal: cv(1_000_000, 0),
    };
    let mut tops = vec![a, b];
    resolve_top_collisions(&tuning, &vec![msg(1, 1), msg(1, 7), msg(7, 2)], &mut tops);
    assert_eq!(tops, vec![a, b]);
    resolve_top_collisions(&tuning, &vec![msg(1, 2)], &mut tops);
    assert_eq!(tops[0].velocity, cv(-5_000_000, 0));
    assert_eq!(tops[1].velocity, cv(5_000_000, 0));
    assert_eq!(tops[0].spin_hp, a.spin_hp);
}

#[test]
fn resolution_clamps_to_the_move_speed() {
    let mut a = combat_top(1, cv(-500_000, 0), cv(10_000_000, 0), 1_000_000);
    a.stats.stability = Fixed(9_000_000);
    let b = combat_top(2, cv(500_000, 0), cv(-10_000_000, 0), 1_000_000);
    let pair = resolved_pair(a, b, cv(1_000_000, 0), Fixed(1_000_000));
    assert!(pair.b.velocity.norm_sq_wide() <= 10_000_000u128 * 10_000_000u128);
    assert!(pair.a.velocity.norm_sq_wide() <= 10_000_000u128 * 10_000_000u128);
    assert_eq!(pair.b.velocity, cv(10_000_000, 0));
}

#[test]
fn the_hook_phase_passes_events_through() {
    let mut events = vec![damage(None, 1, 1_000_000, DamageKind::Wall)];
    process_hooks(&mut events);
    assert_eq!(events, vec![damage(None, 1, 1_000_000, DamageKind::Wall)]);
}

fn ranged_top(id: u64, ranged: RangedSpec) -> TopEntity {
    let mut t = combat_top(id, cv(1_000_000, 2_000_000), cv(0, 0), 500_000);
    t.ranged = Some(ranged);
    t
}

#[test]
fn ranged_weapon_fires_when_its_timer_runs_out() {
    let tuning = Tuning::default();
    let mut tops = vec![ranged_top(1, RangedSpec::default())];
    let mut events = Vec::new();
    fire_ranged_weapons(&tuning, &mut tops, &mut events);
    assert_eq!(
        events,
        vec![GameEvent::SpawnProjectile {
            src: EntityId(1),
            position: cv(1_500_000, 2_000_000),
            direction: cv(1_000_000, 0),
            speed: Fixed(15_000_000),
            damage: Fixed(7_000_000),
            radius: Fixed(300_000),
            lifetime: Fixed(2_000_000),
        }]
    );
    // The timer starts again at 1 / (3 shots per second).
    assert_eq!(tops[0].ranged_timer.0, Fixed(333_333));
    let mut shots: usize = 1;
    for _ in 0..60 {
        let mut events = Vec::new();
        fire_ranged_weapons(&tuning, &mut tops, &mut events);
        shots += events.len();
    }
    // One shot every 20 ticks of 1/60 s.
    assert_eq!(shots, 4);
}

#[test]
fn fire_rate_multiplier_and_floor() {
    let mut fast = ranged_top(1, RangedSpec::default());
    fast.stats.fire_rate_mult = Multiplier(Fixed(2_000_000));
    let mut stuck = ranged_top(2, RangedSpec { fire_rate: Fixed(0), ..RangedSpec::default() });
    stuck.ranged_timer.0 = Fixed(1_000_000);
    let melee_only = combat_top(3, cv(0, 0), cv(0, 0), 500_000);
    let mut tops = vec![fast, stuck, melee_only];
    let mut events = Vec::new();
    fire_ranged_weapons(&Tuning::default(), &mut tops, &mut events);
    assert_eq!(events.len(), 1);
    assert_eq!(tops[0].ranged_timer.0, Fixed(166_666));
    assert_eq!(tops[1].ranged_timer.0, Fixed(983_333));
    assert_eq!(tops[2].ranged_timer.0, Fixed(-16_667));
    assert_eq!(RangedSpec { fire_rate: Fixed(0), ..RangedSpec::default() }
        .cooldown(Multiplier::one()), Fixed(10_000_000));
}

#[test]
fn a_burst_fans_across_the_spread() {
    let spec = RangedSpec {
        burst_count: 3,
        spread_angle: Fixed(600_000),
        ..RangedSpec::default()
    };
    assert!(!spec.is_single_shot());
    assert_eq!(spec.burst_size(), 3);
    let facing = AngleRad(Fixed(0));
    assert_eq!(spec.shot_angle(facing, 0), AngleRad(Fixed(5_983_185)));
    assert_eq!(spec.shot_angle(facing, 1), AngleRad(Fixed(0)));
    assert_eq!(spec.shot_angle(facing, 2), AngleRad(Fixed(300_000)));
    let mut tops = vec![ranged_top(1, spec)];
    let mut events = Vec::new();
    fire_ranged_weapons(&Tuning::default(), &mut tops, &mut events);
    let dirs: Vec<Vec2> = events
        .iter()
        .map(|e| match e {
            GameEvent::SpawnProjectile { direction, .. } => *direction,
            _ => panic!("not a spawn"),
        })
        .collect();
    assert_eq!(dirs, vec![cv(955_336, -295_519), cv(1_000_000, 0), cv(955_336, 295_519)]);
    let zero = RangedSpec { burst_count: 0, ..RangedSpec::default() };
    assert!(zero.is_single_shot());
    assert_eq!(zero.burst_size(), 1);
}

fn melee_top(id: u64, pos: Vec2, melee: MeleeSpec) -> TopEntity {
    let mut t = combat_top(id, pos, cv(0, 0), 500_000);
    t.melee = Some(melee);
    t
}

#[test]
fn melee_hits_inside_reach_and_arc() {
    let tuning = Tuning::default();
    let attacker = melee_top(1, cv(0, 0), MeleeSpec::default());
    let ahead = combat_top(2, cv(2_000_000, 0), cv(0, 0), 500_000);
    let beside = combat_top(3, cv(0, 2_000_000), cv(0, 0), 500_000);
    let far = combat_top(4, cv(3_500_001, 0), cv(0, 0), 500_000);
    let edge = combat_top(5, cv(3_500_000, 0), cv(0, 0), 500_000);
    let m = MeleeSpec::default();
    assert!(attacker.melee_reaches(m, ahead));
    assert!(!attacker.melee_reaches(m, beside));
    assert!(!attacker.melee_reaches(m, far));
    assert!(attacker.melee_reaches(m, edge));
    let tops = vec![attacker, ahead, beside, far, edge];
    let mut trackers: Vec<MeleeHitTracker> = (0..5).map(|_| MeleeHitTracker::new()).collect();
    let mut events = Vec::new();
    detect_melee_hits(&tuning, &tops, &mut trackers, &mut events);
    assert_eq!(
        events,
        vec![
            damage(Some(1), 2, 5_500_000, DamageKind::Melee),
            damage(Some(1), 5, 5_500_000, DamageKind::Melee),
        ]
    );
    assert_eq!(trackers[0].cooldowns.len(), 2);
    assert_eq!(trackers[0].cooldowns[0].target, EntityId(2));
    assert_eq!(trackers[0].cooldowns[0].remaining, Fixed(500_000));
    // The cooldown holds the next scan off.
    let mut events = Vec::new();
    detect_melee_hits(&tuning, &tops, &mut trackers, &mut events);
    assert!(events.is_empty());
}

#[test]
fn melee_arc_edges() {
    let ahead = cv(1_000_000, 0);
    let up = cv(0, 1_000_000);
    let back = cv(-1_000_000, 0);
    // 60 degrees wide: 30 to each side.
    assert!(in_arc(ahead, cv(866_026, 499_999), Fixed(1_047_198)));
    assert!(!in_arc(ahead, cv(866_025, 500_000), Fixed(1_047_198)));
    assert!(!in_arc(ahead, up, Fixed(1_047_198)));
    // A half angle of π or more takes in everything; a negative one nothing.
    assert!(in_arc(ahead, back, Fixed(6_283_186)));
    assert!(!in_arc(ahead, back, Fixed(6_000_000)));
    assert!(!in_arc(ahead, ahead, Fixed(-2)));
    assert!(in_arc(ahead, ahead, Fixed(0)));
}

#[test]
fn melee_hit_carries_the_weapons_control_effect() {
    let tuning = Tuning::default();
    let stun = ControlEffect::Stun { duration: Seconds(Fixed(1_000_000)) };
    let attacker = melee_top(1, cv(0, 0), MeleeSpec { hit_control: Some(stun), ..MeleeSpec::default() });
    let target = melee_top(2, cv(1_000_000, 0), MeleeSpec::default());
    let tops = vec![attacker, target];
    let mut trackers = vec![MeleeHitTracker::new(), MeleeHitTracker::new()];
    let mut events = Vec::new();
    detect_melee_hits(&tuning, &tops, &mut trackers, &mut events);
    // The target faces away from the attacker, so only the attacker hits.
    assert_eq!(
        events,
        vec![
            damage(Some(1), 2, 5_500_000, DamageKind::Melee),
            GameEvent::ApplyControl { src: Some(EntityId(1)), dst: EntityId(2), control: stun },
        ]
    );
    assert!(trackers[1].cooldowns.is_empty());
}

#[test]
fn melee_damage_scales_with_speed_when_switched_on() {
    let mut tuning = Tuning::default();
    let mut attacker = melee_top(1, cv(0, 0), MeleeSpec::default());
    attacker.velocity = cv(3_000_000, 4_000_000);
    assert_eq!(attacker.melee_damage(MeleeSpec::default(), &tuning), Fixed(5_500_000));
    tuning.melee_speed_scale_k = Fixed(100_000);
    // 5.5 × (1 + 0.1 × 5) = 8.25
    assert_eq!(attacker.melee_damage(MeleeSpec::default(), &tuning), Fixed(8_250_000));
}

#[test]
fn a_top_without_a_blade_does_not_hit() {
    let tuning = Tuning::default();
    let a = combat_top(1, cv(0, 0), cv(0, 0), 500_000);
    let b = combat_top(2, cv(1_000_000, 0), cv(0, 0), 500_000);
    let mut trackers = vec![MeleeHitTracker::new(), MeleeHitTracker::new()];
    let mut events = Vec::new();
    detect_melee_hits(&tuning, &vec![a, b], &mut trackers, &mut events);
    assert!(events.is_empty());
}
