//! The tuning values of a session. The simulation reads them and never
//! changes them.

use vstd::prelude::*;
use crate::fixed::Fixed;

verus! {

/// All tunable parameters of the game.
#[derive(Debug, Clone, Copy, PartialEq, Eq, Structural)]
pub struct Tuning {
    /// Length of a simulation tick in seconds.
    pub dt: Fixed,
    pub pixels_per_unit: Fixed,
    pub aim_arrow_len_px: Fixed,
    pub aim_arrow_thickness_px: Fixed,
    pub aim_arrow_offset_px: Fixed,
    pub arena_radius: Fixed,
    /// Share of speed a top keeps when it bounces off the wall.
    pub wall_bounce_damping: Fixed,
    /// Elasticity of a collision between two tops.
    pub top_collisions_restitution: Fixed,
    pub spin_drain_idle_per_sec: Fixed,
    pub spin_drain_on_wall_hit: Fixed,
    pub spin_drain_on_top_hit: Fixed,
    /// Damage per unit of impulse when two tops collide.
    pub collision_damage_k: Fixed,
    /// Damage per unit of speed into the wall.
    pub wall_damage_k: Fixed,
    pub size_damage_k: Fixed,
    pub size_radius_ref: Fixed,
    pub max_speed: Fixed,
    /// Acceleration a movement intent gives.
    pub input_accel: Fixed,
    /// How much melee damage grows with the attacker's speed; 0 switches
    /// the scaling off.
    pub melee_speed_scale_k: Fixed,
    /// Damage an obstacle deals on each tick of contact.
    pub obstacle_damage: Fixed,
    /// Turning speed while aiming, in radians per second.
    pub aim_speed: Fixed,
    /// Radians of visual rotation per unit of distance travelled.
    pub spin_visual_k: Fixed,
}

impl Tuning {
    /// What a tick relies on to keep spin from growing: time does not run
    /// backward and the idle drain is not negative.
    pub open spec fn wf(self) -> bool {
        self.dt.0 >= 0 && self.spin_drain_idle_per_sec.0 >= 0
    }

    /// The stock tuning.
    pub open spec fn spec_default() -> Tuning {
        Tuning {
            dt: Fixed(16_667),
            pixels_per_unit: Fixed(25_000_000),
            aim_arrow_len_px: Fixed(60_000_000),
            aim_arrow_thickness_px: Fixed(4_000_000),
            aim_arrow_offset_px: Fixed(40_000_000),
            arena_radius: Fixed(12_000_000),
            wall_bounce_damping: Fixed(1_000_000),
            top_collisions_restitution: Fixed(1_000_000),
            spin_drain_idle_per_sec: Fixed(200_000),
            spin_drain_on_wall_hit: Fixed(500_000),
            spin_drain_on_top_hit: Fixed(1_000_000),
            collision_damage_k: Fixed(500_000),
            wall_damage_k: Fixed(300_000),
            size_damage_k: Fixed(0),
            size_radius_ref: Fixed(1_000_000),
            max_speed: Fixed(30_000_000),
            input_accel: Fixed(25_000_000),
            melee_speed_scale_k: Fixed(0),
            obstacle_damage: Fixed(2_000_000),
            aim_speed: Fixed(3_000_000),
            spin_visual_k: Fixed(2_000_000),
        }
    }
}

impl Default for Tuning {
    fn default() -> (r: Tuning)
        ensures
            r == Tuning::spec_default(),
            r.wf(),
    {
        Tuning {
            dt: Fixed(16_667),
            pixels_per_unit: Fixed(25_000_000),
            aim_arrow_len_px: Fixed(60_000_000),
            aim_arrow_thickness_px: Fixed(4_000_000),
            aim_arrow_offset_px: Fixed(40_000_000),
            arena_radius: Fixed(12_000_000),
            wall_bounce_damping: Fixed(1_000_000),
            top_collisions_restitution: Fixed(1_000_000),
            spin_drain_idle_per_sec: Fixed(200_000),
            spin_drain_on_wall_hit: Fixed(500_000),
            spin_drain_on_top_hit: Fixed(1_000_000),
            collision_damage_k: Fixed(500_000),
            wall_damage_k: Fixed(300_000),
            size_damage_k: Fixed(0),
            size_radius_ref: Fixed(1_000_000),
            max_speed: Fixed(30_000_000),
            input_accel: Fixed(25_000_000),
            melee_speed_scale_k: Fixed(0),
            obstacle_damage: Fixed(2_000_000),
            aim_speed: Fixed(3_000_000),
            spin_visual_k: Fixed(2_000_000),
        }
    }
}

} // verus!
