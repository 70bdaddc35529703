use cyber_top::config::tuning::Tuning;
use cyber_top::fixed::Fixed;
use cyber_top::parts::chassis::ChassisSpec;
use cyber_top::parts::shaft::ShaftSpec;
use cyber_top::parts::trait_screw::{TraitHookKind, TraitPassive, TraitScrewSpec};
use cyber_top::parts::weapon_wheel::{MeleeSpec, RangedSpec, WeaponWheelSpec};
use cyber_top::parts::Build;
use cyber_top::stats::base::BaseStats;
use cyber_top::stats::effective::EffectiveStats;
use cyber_top::stats::modifier::{ModifierSet, StatModifier};
use cyber_top::stats::types::{
    AimMode, CollisionBehavior, ControlEffect, DamageKind, MetersPerSec, Multiplier, PartSlot,
    Radius, Seconds, SpinHp, Tick, WeaponKind,
};

#[test]
fn spin_hp_is_never_negative() {
    assert_eq!(SpinHp::new(Fixed(-5_000_000)), SpinHp(Fixed(0)));
    assert_eq!(SpinHp::new(Fixed(5_000_000)), SpinHp(Fixed(5_000_000)));
    assert_eq!(SpinHp(Fixed(3_000_000)).sub_clamped(Fixed(5_000_000)), SpinHp(Fixed(0)));
    assert_eq!(SpinHp(Fixed(3_000_000)).sub_clamped(Fixed(1_000_000)), SpinHp(Fixed(2_000_000)));
    assert!(SpinHp(Fixed(1)).is_alive());
    assert!(!SpinHp(Fixed(0)).is_alive());
}

#[test]
fn spin_hp_add_is_held_within_the_maximum() {
    let max = Fixed(100_000_000);
    assert_eq!(SpinHp(Fixed(90_000_000)).add_clamped(Fixed(20_000_000), max), SpinHp(max));
    assert_eq!(
        SpinHp(Fixed(90_000_000)).add_clamped(Fixed(5_000_000), max),
        SpinHp(Fixed(95_000_000))
    );
    assert_eq!(SpinHp(Fixed(10_000_000)).add_clamped(Fixed(-20_000_000), max), SpinHp(Fixed(0)));
}

#[test]
fn seconds_run_down_to_zero() {
    assert_eq!(Seconds::new(Fixed(-1)), Seconds(Fixed(0)));
    assert_eq!(Seconds(Fixed(500_000)).dec(Fixed(16_667)), Seconds(Fixed(483_333)));
    assert_eq!(Seconds(Fixed(10_000)).dec(Fixed(16_667)), Seconds(Fixed(0)));
    assert!(Seconds(Fixed(0)).is_expired());
    assert!(!Seconds(Fixed(1)).is_expired());
}

#[test]
fn multiplier_is_held_within_zero_and_ten() {
    assert_eq!(Multiplier::new(Fixed(-1_000_000)), Multiplier(Fixed(0)));
    assert_eq!(Multiplier::new(Fixed(11_000_000)), Multiplier(Fixed(10_000_000)));
    assert_eq!(Multiplier::new(Fixed(1_500_000)), Multiplier(Fixed(1_500_000)));
    assert_eq!(Multiplier::one(), Multiplier(Fixed(1_000_000)));
    assert_eq!(Multiplier::default(), Multiplier(Fixed(1_000_000)));
    assert_eq!(
        Multiplier(Fixed(1_500_000)).combine(Multiplier(Fixed(2_000_000))),
        Multiplier(Fixed(3_000_000))
    );
    assert_eq!(
        Multiplier(Fixed(5_000_000)).combine(Multiplier(Fixed(4_000_000))),
        Multiplier(Fixed(10_000_000))
    );
    assert_eq!(
        Multiplier(Fixed(1_500_000)) * Multiplier(Fixed(2_000_000)),
        Multiplier(Fixed(3_000_000))
    );
    assert_eq!(
        Multiplier(Fixed(5_000_000)) * Multiplier(Fixed(4_000_000)),
        Multiplier(Fixed(10_000_000))
    );
}

#[test]
fn default_values_of_the_newtypes() {
    assert_eq!(SpinHp::default(), SpinHp(Fixed(0)));
    assert_eq!(Radius::default(), Radius(Fixed(0)));
    assert_eq!(MetersPerSec::default(), MetersPerSec(Fixed(0)));
    assert_eq!(Seconds::default(), Seconds(Fixed(0)));
    assert_eq!(cyber_top::stats::types::AngleRad::default().0, Fixed(0));
    // The default modifier multiplies by 0; the identity changes nothing.
    let zero = StatModifier::default();
    assert_eq!(zero.mul, Fixed(0));
    assert_eq!(zero.apply(Fixed(7_000_000)), Fixed(0));
    let set = ModifierSet::default();
    assert_eq!(set.radius, zero);
    assert!(set.control_reduction_sources.is_empty());
    assert_eq!(set.fire_rate_mult, Multiplier::one());
}

#[test]
fn tick_counts_up() {
    assert_eq!(Tick(0).next(), Tick(1));
    assert_eq!(Tick(41).next(), Tick(42));
    assert_eq!(Tick::default(), Tick(0));
}

#[test]
fn kinds_compare_by_variant() {
    assert_ne!(PartSlot::WeaponWheel, PartSlot::TraitScrew);
    assert_ne!(PartSlot::Shaft, PartSlot::Chassis);
    assert_ne!(AimMode::FollowSpin, AimMode::SeekNearestTarget);
    assert_ne!(WeaponKind::Melee, WeaponKind::Ranged);
    assert_ne!(DamageKind::Wall, DamageKind::Collision);
    assert_ne!(DamageKind::Melee, DamageKind::Projectile);
    assert_eq!(DamageKind::Obstacle, DamageKind::Obstacle);
    assert_ne!(CollisionBehavior::Solid, CollisionBehavior::DamageOnHit);
    assert_ne!(CollisionBehavior::DamageOnHit, CollisionBehavior::ApplyControlOnHit);
    assert_ne!(TraitHookKind::OnHit, TraitHookKind::OnTick);
    assert_ne!(TraitHookKind::OnWallCollision, TraitHookKind::OnFireProjectile);
}

#[test]
fn control_effect_reduction_scales_durations_and_distance() {
    let half = Fixed(500_000);
    assert_eq!(
        ControlEffect::Stun { duration: Seconds(Fixed(2_000_000)) }.apply_reduction(half),
        ControlEffect::Stun { duration: Seconds(Fixed(1_000_000)) }
    );
    assert_eq!(
        ControlEffect::Slow { duration: Seconds(Fixed(2_000_000)), ratio: Fixed(300_000) }
            .apply_reduction(half),
        ControlEffect::Slow { duration: Seconds(Fixed(1_000_000)), ratio: Fixed(300_000) }
    );
    assert_eq!(
        ControlEffect::Knockback { distance: Fixed(4_000_000) }.apply_reduction(half),
        ControlEffect::Knockback { distance: Fixed(2_000_000) }
    );
    // A negative multiplier counts as 0.
    assert_eq!(
        ControlEffect::Stun { duration: Seconds(Fixed(2_000_000)) }
            .apply_reduction(Fixed(-1_000_000)),
        ControlEffect::Stun { duration: Seconds(Fixed(0)) }
    );
}

#[test]
fn stat_modifier_adds_multiplies_then_clamps() {
    let id = StatModifier::identity();
    assert_eq!(id.apply(Fixed(7_000_000)), Fixed(7_000_000));
    let m = StatModifier {
        add: Fixed(2_000_000),
        mul: Fixed(1_500_000),
        clamp_min: None,
        clamp_max: None,
    };
    assert_eq!(m.apply(Fixed(10_000_000)), Fixed(18_000_000));
    let capped = StatModifier { clamp_max: Some(Fixed(15_000_000)), ..m };
    assert_eq!(capped.apply(Fixed(10_000_000)), Fixed(15_000_000));
    let floored = StatModifier { clamp_min: Some(Fixed(20_000_000)), ..m };
    assert_eq!(floored.apply(Fixed(10_000_000)), Fixed(20_000_000));
    let both = StatModifier {
        clamp_min: Some(Fixed(20_000_000)),
        clamp_max: Some(Fixed(19_000_000)),
        ..m
    };
    assert_eq!(both.apply(Fixed(10_000_000)), Fixed(19_000_000));
    assert_eq!(
        m.stack(m),
        StatModifier {
            add: Fixed(4_000_000),
            mul: Fixed(2_250_000),
            clamp_min: None,
            clamp_max: None
        }
    );
}

#[test]
fn modifier_set_merge_sums_multiplies_and_appends() {
    let mut a = ModifierSet::new();
    a.spin_hp_max.add = Fixed(10_000_000);
    a.move_speed.mul = Fixed(1_200_000);
    a.control_reduction_sources.push(Fixed(200_000));
    a.damage_out_mult = Multiplier(Fixed(2_000_000));
    let mut b = ModifierSet::new();
    b.spin_hp_max.add = Fixed(5_000_000);
    b.move_speed.mul = Fixed(1_500_000);
    b.control_reduction_sources.push(Fixed(100_000));
    b.damage_out_mult = Multiplier(Fixed(6_000_000));
    b.damage_in_mult = Multiplier(Fixed(500_000));
    a.merge(&b);
    assert_eq!(a.spin_hp_max.add, Fixed(15_000_000));
    assert_eq!(a.spin_hp_max.mul, Fixed(1_000_000));
    assert_eq!(a.move_speed.mul, Fixed(1_800_000));
    assert_eq!(a.control_reduction_sources, vec![Fixed(200_000), Fixed(100_000)]);
    assert_eq!(a.damage_out_mult, Multiplier(Fixed(10_000_000)));
    assert_eq!(a.damage_in_mult, Multiplier(Fixed(500_000)));
    assert_eq!(a.fire_rate_mult, Multiplier(Fixed(1_000_000)));
}

#[test]
fn control_stacking_example() {
    // Sources [0.2, 0.1] with base 0.05: 1.2 × 1.1 × 1.05 = 1.386, so the
    // multiplier is 1 − 0.386 = 0.614.
    let mut mods = ModifierSet::new();
    mods.control_reduction_sources.push(Fixed(200_000));
    mods.control_reduction_sources.push(Fixed(100_000));
    let mut base = BaseStats::default();
    base.control_reduction = Fixed(50_000);
    let stats = mods.compute_effective(&base, &Tuning::default());
    assert_eq!(stats.control_multiplier, Fixed(614_000));
}

#[test]
fn control_stacking_clamps_at_full_immunity() {
    let mut mods = ModifierSet::new();
    mods.control_reduction_sources.push(Fixed(900_000));
    mods.control_reduction_sources.push(Fixed(900_000));
    let stats = mods.compute_effective(&BaseStats::default(), &Tuning::default());
    assert_eq!(stats.control_multiplier, Fixed(0));
}

#[test]
fn compute_effective_of_the_stock_build() {
    let build = Build::default();
    let stats = build.combined_modifiers().compute_effective(&build.top, &Tuning::default());
    assert_eq!(
        stats,
        EffectiveStats {
            spin_hp_max: SpinHp(Fixed(100_000_000)),
            radius: Radius(Fixed(1_300_000)),
            move_speed: MetersPerSec(Fixed(10_000_000)),
            accel: Fixed(25_000_000),
            control_multiplier: Fixed(1_000_000),
            spin_drain_idle_per_sec: Fixed(200_000),
            spin_drain_on_wall_hit: Fixed(500_000),
            spin_drain_on_top_hit: Fixed(1_000_000),
            stability: Fixed(500_000),
            damage_out_mult: Multiplier(Fixed(1_000_000)),
            damage_in_mult: Multiplier(Fixed(1_000_000)),
            fire_rate_mult: Multiplier(Fixed(1_000_000)),
        }
    );
}

#[test]
fn compute_effective_clamps_each_field() {
    let mut mods = ModifierSet::new();
    mods.spin_hp_max.add = Fixed(-500_000_000);
    mods.radius.mul = Fixed(0);
    mods.move_speed.mul = Fixed(9_000_000);
    mods.accel.add = Fixed(-100_000_000);
    mods.stability.add = Fixed(-1_000_000);
    mods.spin_efficiency.mul = Fixed(2_000_000);
    mods.damage_out_mult = Multiplier(Fixed(99_000_000));
    let stats = mods.compute_effective(&BaseStats::default(), &Tuning::default());
    assert_eq!(stats.spin_hp_max, SpinHp(Fixed(0)));
    assert_eq!(stats.radius, Radius(Fixed(10_000)));
    assert_eq!(stats.move_speed, MetersPerSec(Fixed(30_000_000)));
    assert_eq!(stats.accel, Fixed(0));
    assert_eq!(stats.stability, Fixed(0));
    assert_eq!(stats.spin_drain_idle_per_sec, Fixed(100_000));
    assert_eq!(stats.damage_out_mult, Multiplier(Fixed(10_000_000)));
}

#[test]
fn compute_effective_with_no_spin_efficiency_drains_without_bound() {
    let mut mods = ModifierSet::new();
    mods.spin_efficiency.mul = Fixed(0);
    let stats = mods.compute_effective(&BaseStats::default(), &Tuning::default());
    assert_eq!(stats.spin_drain_idle_per_sec, Fixed(i64::MAX));
}

#[test]
fn parts_contribute_their_modifiers() {
    let shaft = ShaftSpec {
        id: "s".to_string(),
        name: "S".to_string(),
        stability: Fixed(700_000),
        spin_efficiency: Fixed(1_250_000),
    };
    let m = shaft.to_modifiers();
    assert_eq!(m.stability.add, Fixed(700_000));
    assert_eq!(m.spin_efficiency.mul, Fixed(1_250_000));
    assert_eq!(m.move_speed, StatModifier::identity());

    let chassis = ChassisSpec {
        id: "c".to_string(),
        name: "C".to_string(),
        move_speed_add: Fixed(1_000_000),
        move_speed_mul: Fixed(1_100_000),
        accel_add: Fixed(2_000_000),
        accel_mul: Fixed(900_000),
        radius_add: Fixed(100_000),
        radius_mul: Fixed(1_050_000),
    };
    let m = chassis.to_modifiers();
    assert_eq!(m.move_speed.add, Fixed(1_000_000));
    assert_eq!(m.move_speed.mul, Fixed(1_100_000));
    assert_eq!(m.accel.add, Fixed(2_000_000));
    assert_eq!(m.accel.mul, Fixed(900_000));
    assert_eq!(m.radius.add, Fixed(100_000));
    assert_eq!(m.radius.mul, Fixed(1_050_000));

    let screw = TraitScrewSpec {
        id: "t".to_string(),
        name: "T".to_string(),
        passive: TraitPassive {
            spin_hp_max_add: Fixed(20_000_000),
            control_reduction: Fixed(200_000),
            damage_out_mult: Fixed(12_000_000),
            damage_in_mult: Fixed(800_000),
        },
        hooks: vec![TraitHookKind::OnHit],
    };
    let m = screw.to_modifiers();
    assert_eq!(m.spin_hp_max.add, Fixed(20_000_000));
    assert_eq!(m.control_reduction_sources, vec![Fixed(200_000)]);
    assert_eq!(m.damage_out_mult, Multiplier(Fixed(10_000_000)));
    assert_eq!(m.damage_in_mult, Multiplier(Fixed(800_000)));
    let copy = screw.clone();
    assert_eq!(copy.hooks, vec![TraitHookKind::OnHit]);
    assert_eq!(copy.passive, screw.passive);
}

#[test]
fn a_screw_without_control_reduction_adds_no_source() {
    let m = TraitScrewSpec::default().to_modifiers();
    assert!(m.control_reduction_sources.is_empty());
    assert_eq!(TraitPassive::default().damage_out_mult, Fixed(1_000_000));
}

#[test]
fn build_merges_shaft_chassis_and_screw() {
    let mut build = Build::default();
    build.shaft.stability = Fixed(300_000);
    build.chassis.move_speed_mul = Fixed(1_500_000);
    build.screw.passive.control_reduction = Fixed(100_000);
    let m = build.combined_modifiers();
    assert_eq!(m.stability.add, Fixed(300_000));
    assert_eq!(m.move_speed.mul, Fixed(1_500_000));
    assert_eq!(m.control_reduction_sources, vec![Fixed(100_000)]);
    assert_eq!(build.id, "default_build");
    assert_eq!(build.top.id, "default_top");
    assert!(build.note.is_none());
}

#[test]
fn weapon_spin_rate_multiplier_takes_the_larger() {
    let mut w = WeaponWheelSpec::default();
    assert_eq!(w.id, "default_melee");
    assert_eq!(w.kind, WeaponKind::Melee);
    assert_eq!(w.spin_rate_multiplier(), Fixed(1_000_000));
    w.ranged = Some(RangedSpec::default());
    assert_eq!(w.spin_rate_multiplier(), Fixed(1_000_000));
    w.melee = None;
    assert_eq!(w.spin_rate_multiplier(), Fixed(300_000));
    w.ranged = None;
    assert_eq!(w.spin_rate_multiplier(), Fixed(1_000_000));
    let copy = w.clone();
    assert_eq!(copy.id, w.id);
}

#[test]
fn stock_weapon_specs() {
    let m = MeleeSpec::default();
    assert_eq!(m.base_damage, Fixed(5_500_000));
    assert_eq!(m.hit_cooldown, Fixed(500_000));
    assert_eq!(m.hitbox_radius, Fixed(2_500_000));
    assert_eq!(m.hitbox_angle, Fixed(1_047_198));
    assert!(m.hit_control.is_none());
    let r = RangedSpec::default();
    assert_eq!(r.projectile_damage, Fixed(7_000_000));
    assert_eq!(r.fire_rate, Fixed(3_000_000));
    assert_eq!(r.burst_count, 1);
    assert_eq!(r.lifetime, Seconds(Fixed(2_000_000)));
    assert_eq!(r.projectile_speed, Fixed(15_000_000));
    assert_eq!(r.aim_mode, AimMode::FollowSpin);
}

#[test]
fn stock_tuning_and_stats() {
    let t = Tuning::default();
    assert_eq!(t.dt, Fixed(16_667));
    assert_eq!(t.arena_radius, Fixed(12_000_000));
    assert_eq!(t.max_speed, Fixed(30_000_000));
    assert_eq!(t.collision_damage_k, Fixed(500_000));
    assert_eq!(t.wall_damage_k, Fixed(300_000));
    assert_eq!(t.obstacle_damage, Fixed(2_000_000));
    let s = EffectiveStats::default();
    assert_eq!(s.radius, Radius(Fixed(500_000)));
    assert_eq!(s.move_speed, MetersPerSec(Fixed(5_000_000)));
    let b = BaseStats::default();
    assert_eq!(b.name, "Standard Top");
    assert_eq!(b.clone().radius, Radius(Fixed(1_300_000)));
    assert_eq!(ShaftSpec::default().clone().id, "default_shaft");
    assert_eq!(ChassisSpec::default().clone().name, "Standard Chassis");
}
