//! The weapon wheel: a melee blade, a ranged barrel, or both.

use vstd::prelude::*;
use crate::fixed::Fixed;
use crate::stats::types::{AimMode, ControlEffect, Seconds, WeaponKind};

verus! {

/// Melee weapon specification.
#[derive(Debug, Clone, Copy, PartialEq, Eq, Structural)]
pub struct MeleeSpec {
    pub base_damage: Fixed,
    /// Seconds before the same target can be hit again.
    pub hit_cooldown: Fixed,
    /// Most hits in one full rotation; 0 is unlimited.
    pub max_hits_per_rotation: u32,
    /// Reach of the blade beyond the top's own radius.
    pub hitbox_radius: Fixed,
    /// Width of the facing arc in radians.
    pub hitbox_angle: Fixed,
    /// Control effect a hit applies, if any.
    pub hit_control: Option<ControlEffect>,
    pub spin_rate_multiplier: Fixed,
    pub blade_len: Fixed,
    pub blade_thick: Fixed,
}

impl MeleeSpec {
    /// The stock blade.
    pub open spec fn spec_default() -> MeleeSpec {
        MeleeSpec {
            base_damage: Fixed(5_500_000),
            hit_cooldown: Fixed(500_000),
            max_hits_per_rotation: 0,
            hitbox_radius: Fixed(2_500_000),
            hitbox_angle: Fixed(1_047_198),
            hit_control: None,
            spin_rate_multiplier: Fixed(1_000_000),
            blade_len: Fixed(2_300_000),
            blade_thick: Fixed(300_000),
        }
    }
}

impl Default for MeleeSpec {
    fn default() -> (r: MeleeSpec)
        ensures
            r == MeleeSpec::spec_default(),
    {
        MeleeSpec {
            base_damage: Fixed(5_500_000),
            hit_cooldown: Fixed(500_000),
            max_hits_per_rotation: 0,
            hitbox_radius: Fixed(2_500_000),
            hitbox_angle: Fixed(1_047_198),
            hit_control: None,
            spin_rate_multiplier: Fixed(1_000_000),
            blade_len: Fixed(2_300_000),
            blade_thick: Fixed(300_000),
        }
    }
}

/// Ranged weapon specification.
#[derive(Debug, Clone, Copy, PartialEq, Eq, Structural)]
pub struct RangedSpec {
    pub projectile_damage: Fixed,
    /// Shots per second.
    pub fire_rate: Fixed,
    /// Projectiles per burst.
    pub burst_count: u32,
    /// Angle the burst fans across, in radians; 0 is a single line.
    pub spread_angle: Fixed,
    pub knockback_distance: Fixed,
    pub projectile_radius: Fixed,
    pub control_duration: Seconds,
    /// How long a projectile lives.
    pub lifetime: Seconds,
    pub projectile_speed: Fixed,
    pub aim_mode: AimMode,
    pub spin_rate_multiplier: Fixed,
    pub barrel_len: Fixed,
    pub barrel_thick: Fixed,
}

impl RangedSpec {
    /// The stock blaster.
    pub open spec fn spec_default() -> RangedSpec {
        RangedSpec {
            projectile_damage: Fixed(7_000_000),
            fire_rate: Fixed(3_000_000),
            burst_count: 1,
            spread_angle: Fixed(0),
            knockback_distance: Fixed(0),
            projectile_radius: Fixed(300_000),
            control_duration: Seconds(Fixed(0)),
            lifetime: Seconds(Fixed(2_000_000)),
            projectile_speed: Fixed(15_000_000),
            aim_mode: AimMode::FollowSpin,
            spin_rate_multiplier: Fixed(300_000),
            barrel_len: Fixed(1_000_000),
            barrel_thick: Fixed(300_000),
        }
    }
}

impl Default for RangedSpec {
    fn default() -> (r: RangedSpec)
        ensures
            r == RangedSpec::spec_default(),
    {
        RangedSpec {
            projectile_damage: Fixed(7_000_000),
            fire_rate: Fixed(3_000_000),
            burst_count: 1,
            spread_angle: Fixed(0),
            knockback_distance: Fixed(0),
            projectile_radius: Fixed(300_000),
            control_duration: Seconds(Fixed(0)),
            lifetime: Seconds(Fixed(2_000_000)),
            projectile_speed: Fixed(15_000_000),
            aim_mode: AimMode::FollowSpin,
            spin_rate_multiplier: Fixed(300_000),
            barrel_len: Fixed(1_000_000),
            barrel_thick: Fixed(300_000),
        }
    }
}

/// Weapon wheel specification.
#[derive(Debug)]
pub struct WeaponWheelSpec {
    pub id: String,
    pub name: String,
    pub kind: WeaponKind,
    pub melee: Option<MeleeSpec>,
    pub ranged: Option<RangedSpec>,
}

impl Clone for WeaponWheelSpec {
    fn clone(&self) -> (r: WeaponWheelSpec)
        ensures
            r == *self,
    {
        WeaponWheelSpec {
            id: self.id.clone(),
            name: self.name.clone(),
            kind: self.kind,
            melee: self.melee,
            ranged: self.ranged,
        }
    }
}

impl WeaponWheelSpec {
    /// Whether this is the stock weapon: the stock blade and no barrel.
    pub open spec fn is_stock(&self) -> bool {
        &&& self.id@ == "default_melee"@
        &&& self.name@ == "Basic Blade"@
        &&& self.kind == WeaponKind::Melee
        &&& self.melee == Some(MeleeSpec::spec_default())
        &&& self.ranged == None::<RangedSpec>
    }

    pub open spec fn spec_spin_rate_multiplier(&self) -> Fixed {
        match (self.melee, self.ranged) {
            (Some(m), Some(r)) => m.spin_rate_multiplier.max(r.spin_rate_multiplier),
            (Some(m), None) => m.spin_rate_multiplier,
            (None, Some(r)) => r.spin_rate_multiplier,
            (None, None) => Fixed::one(),
        }
    }

    /// The visual spin rate multiplier of the weapon: that of its one
    /// definition, the larger of the two for a hybrid, 1 for none.
    #[verifier::when_used_as_spec(spec_spin_rate_multiplier)]
    pub fn spin_rate_multiplier(&self) -> (r: Fixed)
        ensures
            r == self.spec_spin_rate_multiplier(),
    {
        match (self.melee, self.ranged) {
            (Some(m), Some(r)) => m.spin_rate_multiplier.max(r.spin_rate_multiplier),
            (Some(m), None) => m.spin_rate_multiplier,
            (None, Some(r)) => r.spin_rate_multiplier,
            (None, None) => Fixed::one(),
        }
    }
}

impl Default for WeaponWheelSpec {
    fn default() -> (r: WeaponWheelSpec)
        ensures
            r.is_stock(),
    {
        WeaponWheelSpec {
            id: "default_melee".to_owned(),
            name: "Basic Blade".to_owned(),
            kind: WeaponKind::Melee,
            melee: Some(MeleeSpec::default()),
            ranged: None,
        }
    }
}

} // verus!
