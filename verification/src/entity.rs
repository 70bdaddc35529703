//! Entities of the arena and their stable identities.

use vstd::prelude::*;
use crate::components::{
    ControlState, DamageBoostActive, DamageBoostZone, GravityDevice, RangedFireTimer,
    SpeedBoostEffect, SpeedBoostZone,
};
use crate::fixed::{Fixed, SCALE};
use crate::intent::Intent;
use crate::parts::weapon_wheel::{MeleeSpec, RangedSpec};
use crate::stats::effective::EffectiveStats;
use crate::stats::types::{AngleRad, CollisionBehavior, Seconds, SpinHp};
use crate::vector::Vec2;

verus! {

/// The identity of an entity. A fresh spawn always gets a new one.
#[derive(Debug, Clone, Copy, PartialEq, Eq, Structural, PartialOrd, Ord, Hash)]
pub struct EntityId(pub u64);

/// A spinning top in battle.
#[derive(Debug, Clone, Copy, PartialEq, Eq, Structural)]
pub struct TopEntity {
    pub id: EntityId,
    pub position: Vec2,
    pub velocity: Vec2,
    /// Facing of the weapon.
    pub rotation: AngleRad,
    pub spin_hp: SpinHp,
    /// Resolved when the build was assigned; read-only in battle.
    pub stats: EffectiveStats,
    pub control: ControlState,
    pub ranged_timer: RangedFireTimer,
    pub speed_boost: SpeedBoostEffect,
    pub damage_boost: DamageBoostActive,
    pub intent: Intent,
    pub melee: Option<MeleeSpec>,
    pub ranged: Option<RangedSpec>,
    /// Visual spin rate multiplier of the weapon.
    pub weapon_spin: Fixed,
}

impl TopEntity {
    /// What holds of every top at every tick: spin within `[0, max]`,
    /// speed at most the top's move speed, timers not negative, the angle
    /// within a turn.
    pub open spec fn wf(self) -> bool {
        &&& self.stats.wf()
        &&& 0 <= self.spin_hp.0.0 <= self.stats.spin_hp_max.0.0
        &&& self.velocity.norm_sq() <= self.stats.move_speed.0.0 * self.stats.move_speed.0.0
        &&& self.control.wf()
        &&& 0 <= self.control.slow_ratio.0 <= SCALE
        &&& self.rotation.wf()
        &&& (self.melee matches Some(m) ==> (m.hit_control matches Some(c)
            ==> c.wf()))
    }

    /// A top at rest at `position`, facing `rotation`, with full spin.
    pub open spec fn spec_spawn(
        id: EntityId,
        position: Vec2,
        rotation: AngleRad,
        stats: EffectiveStats,
        melee: Option<MeleeSpec>,
        ranged: Option<RangedSpec>,
        weapon_spin: Fixed,
    ) -> TopEntity {
        TopEntity {
            id,
            position,
            velocity: Vec2::zero(),
            rotation,
            spin_hp: stats.spin_hp_max,
            stats,
            control: ControlState::neutral(),
            ranged_timer: RangedFireTimer(Fixed(0)),
            speed_boost: SpeedBoostEffect { expires_at: Fixed(0), multiplier: Fixed::one() },
            damage_boost: DamageBoostActive { multiplier: Fixed::one() },
            intent: Intent { move_dir: Vec2::zero(), fire: false },
            melee,
            ranged,
            weapon_spin,
        }
    }

    /// Makes a top for the start of a battle: at rest, with full spin, no
    /// control effect, no boost and no intent.
    pub fn spawn(
        id: EntityId,
        position: Vec2,
        rotation: AngleRad,
        stats: EffectiveStats,
        melee: Option<MeleeSpec>,
        ranged: Option<RangedSpec>,
        weapon_spin: Fixed,
    ) -> (r: TopEntity)
        ensures
            r == TopEntity::spec_spawn(id, position, rotation, stats, melee, ranged, weapon_spin),
            stats.wf() && rotation.wf() && (melee matches Some(m) ==> (m.hit_control matches Some(c)
                ==> c.wf())) ==> r.wf(),
    {
        proof {
            assert(0 * 0 == 0int);
            assert(stats.move_speed.0.0 * stats.move_speed.0.0 >= 0) by (nonlinear_arith);
        }
        TopEntity {
            id,
            position,
            velocity: Vec2::zero(),
            rotation,
            spin_hp: stats.spin_hp_max,
            stats,
            control: ControlState::default(),
            ranged_timer: RangedFireTimer(Fixed(0)),
            speed_boost: SpeedBoostEffect { expires_at: Fixed(0), multiplier: Fixed::one() },
            damage_boost: DamageBoostActive { multiplier: Fixed::one() },
            intent: Intent { move_dir: Vec2::zero(), fire: false },
            melee,
            ranged,
            weapon_spin,
        }
    }
}

/// A projectile in flight.
#[derive(Debug, Clone, Copy, PartialEq, Eq, Structural)]
pub struct ProjectileEntity {
    pub id: EntityId,
    pub position: Vec2,
    pub velocity: Vec2,
    pub radius: Fixed,
    pub damage: Fixed,
    /// The top that fired it; it is never hit by it.
    pub owner: EntityId,
    pub lifetime: Seconds,
}

/// An obstacle in the arena.
#[derive(Debug, Clone, Copy, PartialEq, Eq, Structural)]
pub struct ObstacleEntity {
    pub id: EntityId,
    pub position: Vec2,
    pub radius: Fixed,
    pub behavior: CollisionBehavior,
    pub owner: Option<EntityId>,
    /// When a spawned obstacle ends; `None` for one the map placed.
    pub expires_at: Option<Fixed>,
    /// Whether tops bounce off it.
    pub solid: bool,
}

/// What a zone does to the tops that touch it.
#[derive(Debug, Clone, Copy, PartialEq, Eq, Structural)]
pub enum ZoneKind {
    SpeedBoost(SpeedBoostZone),
    DamageBoost(DamageBoostZone),
    Gravity(GravityDevice),
}

/// A stationary area effect.
#[derive(Debug, Clone, Copy, PartialEq, Eq, Structural)]
pub struct ZoneEntity {
    pub id: EntityId,
    pub position: Vec2,
    pub radius: Fixed,
    pub kind: ZoneKind,
}

/// The index of the first top with identity `id`, if there is one.
pub open spec fn top_index(tops: Seq<TopEntity>, id: EntityId) -> Option<int>
    decreases tops.len(),
{
    if tops.len() == 0 {
        None
    } else {
        match top_index(tops.drop_last(), id) {
            Some(i) => Some(i),
            None => if tops.last().id == id {
                Some(tops.len() - 1)
            } else {
                None
            },
        }
    }
}

/// `top_index` finds the first top with the identity, and only such a top.
pub proof fn lemma_top_index(tops: Seq<TopEntity>, id: EntityId)
    ensures
        match top_index(tops, id) {
            Some(i) => 0 <= i < tops.len() && tops[i].id == id && forall|j: int|
                0 <= j < i ==> (#[trigger] tops[j]).id != id,
            None => forall|j: int| 0 <= j < tops.len() ==> (#[trigger] tops[j]).id != id,
        },
    decreases tops.len(),
{
    if tops.len() > 0 {
        lemma_top_index(tops.drop_last(), id);
        match top_index(tops.drop_last(), id) {
            Some(i) => {
                assert forall|j: int| 0 <= j < i implies (#[trigger] tops[j]).id != id by {
                    assert(tops.drop_last()[j] == tops[j]);
                }
                assert(tops.drop_last()[i] == tops[i]);
            },
            None => {
                assert forall|j: int| 0 <= j < tops.len() - 1 implies (#[trigger] tops[j]).id
                    != id by {
                    assert(tops.drop_last()[j] == tops[j]);
                }
            },
        }
    }
}

/// Finds a top by identity.
pub fn find_top(tops: &Vec<TopEntity>, id: EntityId) -> (r: Option<usize>)
    ensures
        match r {
            Some(i) => top_index(tops@, id) == Some(i as int) && i < tops.len() && tops[i as int].id
                == id,
            None => top_index(tops@, id) is None,
        },
{
    let n = tops.len();
    let mut i: usize = 0;
    while i < n
        invariant
            i <= n,
            n == tops.len(),
            forall|j: int| 0 <= j < i ==> (#[trigger] tops@[j]).id != id,
        decreases n - i,
    {
        if tops[i].id.0 == id.0 {
            proof {
                lemma_top_index(tops@, id);
            }
            return Some(i);
        }
        i += 1;
    }
    proof {
        lemma_top_index(tops@, id);
    }
    None
}

} // verus!
