//! The circular wall of the arena.

use vstd::prelude::*;
use crate::config::tuning::Tuning;
use crate::entity::{EntityId, ProjectileEntity, TopEntity};
use crate::events::{events_wf, GameEvent};
use crate::fixed::Fixed;
use crate::physics::{same_ids, tops_wf};
use crate::stats::types::DamageKind;
use crate::vector::Vec2;

verus! {

impl Vec2 {
    pub open spec fn spec_reflected(self, normal: Vec2) -> Vec2 {
        let d = self.dot(normal);
        self.sub(normal.scale(d.add(d)))
    }

    /// The vector mirrored at the line across `normal`:
    /// `v - 2 (v · n) n`.
    #[verifier::when_used_as_spec(spec_reflected)]
    pub fn reflected(self, normal: Vec2) -> (r: Vec2)
        ensures
            r == self.spec_reflected(normal),
    {
        let d = self.dot(normal);
        self.sub(normal.scale(d.add(d)))
    }
}

/// A top after the wall has acted on it, and the damage the wall dealt.
#[derive(Debug, Clone, Copy, PartialEq, Eq, Structural)]
pub struct WallContact {
    pub top: TopEntity,
    pub damage: Option<GameEvent>,
}

impl TopEntity {
    pub open spec fn spec_wall_reflected(self, tuning: &Tuning, arena_radius: Fixed) -> WallContact {
        let dist = self.position.length();
        let boundary = arena_radius.sub(self.stats.radius.0);
        if dist.0 > boundary.0 && dist.0 > 0 {
            let normal = self.position.normalize_or_zero();
            let position = self.position.sub(normal.scale(dist.sub(boundary)));
            let outward = self.velocity.dot(normal);
            if outward.0 > 0 {
                let damping = tuning.wall_bounce_damping.clamp(Fixed::zero(), Fixed::one());
                WallContact {
                    top: TopEntity {
                        position,
                        velocity: self.velocity.reflected(normal).scale(damping).clamp_length(
                            self.stats.move_speed.0,
                        ),
                        ..self
                    },
                    damage: if tuning.wall_damage_k.0 > 0 {
                        Some(
                            GameEvent::DealDamage {
                                src: None,
                                dst: self.id,
                                amount: tuning.wall_damage_k.mul(outward),
                                kind: DamageKind::Wall,
                            },
                        )
                    } else {
                        None
                    },
                }
            } else {
                WallContact { top: TopEntity { position, ..self }, damage: None }
            }
        } else {
            WallContact { top: self, damage: None }
        }
    }

    /// The top after the wall of an arena of radius `arena_radius` has
    /// acted on it. The boundary for the centre is the arena radius less
    /// the top's radius. A top beyond it is pushed back along the inward
    /// normal by its overshoot. If it was also moving outward, its
    /// velocity is mirrored at the wall, scaled by the damping (held in
    /// `[0, 1]`) and clamped to the top's move speed, and the wall deals
    /// `wall_damage_k ×` the outward speed. A top moving inward is pushed
    /// back and nothing more.
    #[verifier::when_used_as_spec(spec_wall_reflected)]
    pub fn wall_reflected(self, tuning: &Tuning, arena_radius: Fixed) -> (r: WallContact)
        ensures
            r == self.spec_wall_reflected(tuning, arena_radius),
            self.wf() ==> r.top.wf(),
            r.top.id == self.id,
            r.top.spin_hp == self.spin_hp,
            r.damage matches Some(e) ==> e matches GameEvent::DealDamage { src, dst, amount, kind }
                && src is None && dst == self.id && kind == DamageKind::Wall && amount.0 >= 0,
    {
        let dist = self.position.length();
        let boundary = arena_radius.sub(self.stats.radius.0);
        if dist.0 > boundary.0 && dist.0 > 0 {
            let normal = self.position.normalize_or_zero();
            let position = self.position.sub(normal.scale(dist.sub(boundary)));
            let outward = self.velocity.dot(normal);
            if outward.0 > 0 {
                let damping = tuning.wall_bounce_damping.clamp(Fixed::zero(), Fixed::one());
                let velocity = self.velocity.reflected(normal).scale(damping).clamp_length(
                    self.stats.move_speed.0,
                );
                proof {
                    if tuning.wall_damage_k.0 > 0 {
                        crate::fixed::lemma_mul_nonneg(tuning.wall_damage_k, outward);
                    }
                }
                let damage = if tuning.wall_damage_k.0 > 0 {
                    Some(
                        GameEvent::DealDamage {
                            src: None,
                            dst: self.id,
                            amount: tuning.wall_damage_k.mul(outward),
                            kind: DamageKind::Wall,
                        },
                    )
                } else {
                    None
                };
                WallContact { top: TopEntity { position, velocity, ..self }, damage }
            } else {
                WallContact { top: TopEntity { position, ..self }, damage: None }
            }
        } else {
            WallContact { top: self, damage: None }
        }
    }
}

/// The wall damage events of the tops, in table order.
pub open spec fn wall_damage_events(tops: Seq<TopEntity>, tuning: &Tuning, arena_radius: Fixed) -> Seq<
    GameEvent,
>
    decreases tops.len(),
{
    if tops.len() == 0 {
        Seq::empty()
    } else {
        let rest = wall_damage_events(tops.drop_last(), tuning, arena_radius);
        match tops.last().wall_reflected(tuning, arena_radius).damage {
            Some(e) => rest.push(e),
            None => rest,
        }
    }
}

/// Keeps every top inside the arena and queues the wall's damage.
pub fn wall_reflection(
    tuning: &Tuning,
    arena_radius: Fixed,
    tops: &mut Vec<TopEntity>,
    events: &mut Vec<GameEvent>,
)
    ensures
        final(tops)@.len() == old(tops)@.len(),
        forall|i: int|
            0 <= i < old(tops)@.len() ==> (#[trigger] final(tops)@[i]) == old(
                tops,
            )@[i].wall_reflected(tuning, arena_radius).top,
        final(events)@ == old(events)@ + wall_damage_events(old(tops)@, tuning, arena_radius),
        tops_wf(old(tops)@) ==> tops_wf(final(tops)@),
        same_ids(old(tops)@, final(tops)@),
        events_wf(old(events)@) ==> events_wf(final(events)@),
{
    let n = tops.len();
    let mut i: usize = 0;
    while i < n
        invariant
            i <= n,
            n == tops.len(),
            n == old(tops)@.len(),
            forall|j: int|
                0 <= j < i ==> (#[trigger] tops@[j]) == old(tops)@[j].wall_reflected(
                    tuning,
                    arena_radius,
                ).top,
            forall|j: int| i <= j < n ==> (#[trigger] tops@[j]) == old(tops)@[j],
            events@ == old(events)@ + wall_damage_events(
                old(tops)@.take(i as int),
                tuning,
                arena_radius,
            ),
            tops_wf(old(tops)@) ==> tops_wf(tops@),
            same_ids(old(tops)@, tops@),
            events_wf(old(events)@) ==> events_wf(events@),
        decreases n - i,
    {
        proof {
            assert(old(tops)@.take(i as int + 1).drop_last() == old(tops)@.take(i as int));
        }
        let contact = tops[i].wall_reflected(tuning, arena_radius);
        tops.set(i, contact.top);
        match contact.damage {
            Some(e) => {
                events.push(e);
            },
            None => {},
        }
        i += 1;
    }
    assert(old(tops)@.take(n as int) == old(tops)@);
}

impl ProjectileEntity {
    pub open spec fn spec_inside_arena(self, arena_radius: Fixed) -> bool {
        self.position.length().0 <= arena_radius.add(self.radius).0
    }

    /// Whether the projectile has not left the arena: its centre is no
    /// farther out than the arena radius plus its own.
    #[verifier::when_used_as_spec(spec_inside_arena)]
    pub fn inside_arena(self, arena_radius: Fixed) -> (r: bool)
        ensures
            r == self.spec_inside_arena(arena_radius),
    {
        self.position.length().0 <= arena_radius.add(self.radius).0
    }
}

/// The test a projectile passes while it is inside the arena.
pub open spec fn inside_arena_pred(arena_radius: Fixed) -> spec_fn(ProjectileEntity) -> bool {
    |p: ProjectileEntity| p.inside_arena(arena_radius)
}

/// The test a projectile passes once it has left the arena.
pub open spec fn outside_arena_pred(arena_radius: Fixed) -> spec_fn(ProjectileEntity) -> bool {
    |p: ProjectileEntity| !p.inside_arena(arena_radius)
}

/// The identities of the projectiles that have left the arena.
pub open spec fn outside_projectile_ids(projectiles: Seq<ProjectileEntity>, arena_radius: Fixed) -> Seq<
    EntityId,
> {
    projectiles.filter(outside_arena_pred(arena_radius)).map_values(|p: ProjectileEntity| p.id)
}

/// Despawns the projectiles that have left the arena; the others stay in
/// their order. Returns the identities it despawned.
pub fn despawn_projectiles_outside_arena(
    arena_radius: Fixed,
    projectiles: &mut Vec<ProjectileEntity>,
) -> (despawned: Vec<EntityId>)
    ensures
        final(projectiles)@ == old(projectiles)@.filter(inside_arena_pred(arena_radius)),
        despawned@ == outside_projectile_ids(old(projectiles)@, arena_radius),
{
    let n = projectiles.len();
    let mut kept: Vec<ProjectileEntity> = Vec::new();
    let mut despawned: Vec<EntityId> = Vec::new();
    let mut i: usize = 0;
    while i < n
        invariant
            i <= n,
            n == projectiles.len(),
            projectiles@ == old(projectiles)@,
            kept@ == projectiles@.take(i as int).filter(inside_arena_pred(arena_radius)),
            despawned@ == outside_projectile_ids(projectiles@.take(i as int), arena_radius),
        decreases n - i,
    {
        proof {
            assert(projectiles@.take(i as int + 1).drop_last() == projectiles@.take(i as int));
            reveal(Seq::filter);
        }
        let p = projectiles[i];
        if p.inside_arena(arena_radius) {
            kept.push(p);
        } else {
            despawned.push(p.id);
        }
        i += 1;
    }
    assert(projectiles@.take(n as int) == projectiles@);
    *projectiles = kept;
    despawned
}

} // verus!
