//! The messages that pass between the phases of a tick.

use vstd::prelude::*;
use crate::entity::EntityId;
use crate::fixed::Fixed;
use crate::stats::types::{CollisionBehavior, ControlEffect, DamageKind};
use crate::vector::Vec2;

verus! {

/// A contact between two tops that approach each other.
#[derive(Debug, Clone, Copy, PartialEq, Eq, Structural)]
pub struct CollisionMessage {
    pub a: EntityId,
    pub b: EntityId,
    /// Closing speed along the normal; positive.
    pub impulse: Fixed,
    /// Unit vector from `a` to `b`.
    pub normal: Vec2,
}

/// The kinds of status effect.
#[derive(Debug, Clone, Copy, PartialEq, Eq, Structural, Hash)]
pub enum StatusEffectKind {
    DamageOverTime,
    SpeedBuff,
    SpeedDebuff,
}

/// One status effect to apply.
#[derive(Debug, Clone, Copy, PartialEq, Eq, Structural)]
pub struct StatusEffectData {
    pub kind: StatusEffectKind,
    pub duration: Fixed,
    pub magnitude: Fixed,
}

/// An intent queued in one phase of a tick and applied in a later one.
#[derive(Debug, Clone, Copy, PartialEq, Eq, Structural)]
#[allow(inconsistent_fields)]
pub enum GameEvent {
    DealDamage { src: Option<EntityId>, dst: EntityId, amount: Fixed, kind: DamageKind },
    ApplyControl { src: Option<EntityId>, dst: EntityId, control: ControlEffect },
    ApplyStatus { src: Option<EntityId>, dst: EntityId, status: StatusEffectData },
    SpawnProjectile {
        src: EntityId,
        position: Vec2,
        direction: Vec2,
        speed: Fixed,
        damage: Fixed,
        radius: Fixed,
        lifetime: Fixed,
    },
    SpawnObstacle {
        src: Option<EntityId>,
        position: Vec2,
        radius: Fixed,
        ttl: Fixed,
        behavior: CollisionBehavior,
    },
    DespawnEntity { entity: EntityId },
}

/// Whether every control effect the events carry is one the simulation
/// accepts.
pub open spec fn events_wf(events: Seq<GameEvent>) -> bool {
    forall|i: int|
        0 <= i < events.len() ==> (#[trigger] events[i] matches GameEvent::ApplyControl {
            control,
            ..
        } ==> control.wf())
}

} // verus!
