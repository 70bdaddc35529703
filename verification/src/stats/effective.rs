//! The resolved stats a top fights with.

use vstd::prelude::*;
use crate::fixed::Fixed;
use super::types::{MetersPerSec, Multiplier, Radius, SpinHp};

verus! {

/// Stats after every part and the tuning have been applied. Computed when a
/// build is assigned and read, never written, during a battle.
#[derive(Debug, Clone, Copy, PartialEq, Eq, Structural)]
pub struct EffectiveStats {
    pub spin_hp_max: SpinHp,
    pub radius: Radius,
    pub move_speed: MetersPerSec,
    /// Acceleration in world units per second squared.
    pub accel: Fixed,
    /// Factor on the duration of control effects: 1 is full length, 0 is
    /// immunity.
    pub control_multiplier: Fixed,
    pub spin_drain_idle_per_sec: Fixed,
    pub spin_drain_on_wall_hit: Fixed,
    pub spin_drain_on_top_hit: Fixed,
    /// Heaviness in collisions: the inverse mass is `1 / (1 + stability)`.
    pub stability: Fixed,
    pub damage_out_mult: Multiplier,
    pub damage_in_mult: Multiplier,
    pub fire_rate_mult: Multiplier,
}

impl EffectiveStats {
    /// The ranges the resolver guarantees.
    pub open spec fn wf(self) -> bool {
        &&& self.spin_hp_max.wf()
        &&& self.radius.0.0 >= 10_000
        &&& self.move_speed.0.0 >= 0
        &&& self.accel.0 >= 0
        &&& self.control_multiplier.0 >= 0
        &&& self.spin_drain_idle_per_sec.0 >= 0
        &&& self.stability.0 >= 0
        &&& self.damage_out_mult.wf()
        &&& self.damage_in_mult.wf()
        &&& self.fire_rate_mult.wf()
    }

    /// The stock stats.
    pub open spec fn spec_default() -> EffectiveStats {
        EffectiveStats {
            spin_hp_max: SpinHp(Fixed(100_000_000)),
            radius: Radius(Fixed(500_000)),
            move_speed: MetersPerSec(Fixed(5_000_000)),
            accel: Fixed(25_000_000),
            control_multiplier: Fixed(1_000_000),
            spin_drain_idle_per_sec: Fixed(200_000),
            spin_drain_on_wall_hit: Fixed(500_000),
            spin_drain_on_top_hit: Fixed(1_000_000),
            stability: Fixed(0),
            damage_out_mult: Multiplier(Fixed(1_000_000)),
            damage_in_mult: Multiplier(Fixed(1_000_000)),
            fire_rate_mult: Multiplier(Fixed(1_000_000)),
        }
    }
}

impl Default for EffectiveStats {
    fn default() -> (r: EffectiveStats)
        ensures
            r == EffectiveStats::spec_default(),
            r.wf(),
    {
        EffectiveStats {
            spin_hp_max: SpinHp(Fixed(100_000_000)),
            radius: Radius(Fixed(500_000)),
            move_speed: MetersPerSec(Fixed(5_000_000)),
            accel: Fixed(25_000_000),
            control_multiplier: Fixed(1_000_000),
            spin_drain_idle_per_sec: Fixed(200_000),
            spin_drain_on_wall_hit: Fixed(500_000),
            spin_drain_on_top_hit: Fixed(1_000_000),
            stability: Fixed(0),
            damage_out_mult: Multiplier(Fixed(1_000_000)),
            damage_in_mult: Multiplier(Fixed(1_000_000)),
            fire_rate_mult: Multiplier(Fixed(1_000_000)),
        }
    }
}

} // verus!
