//! The combat event pipeline: contacts become damage, damage and control
//! events are applied, colliding tops exchange momentum, weapons fire.

use vstd::prelude::*;
use crate::config::tuning::Tuning;
use crate::entity::{find_top, top_index, EntityId, TopEntity};
use crate::events::{events_wf, CollisionMessage, GameEvent};
use crate::fixed::Fixed;
use crate::physics::{same_ids, tops_wf};
use crate::stats::types::{ControlEffect, DamageKind};
use crate::vector::Vec2;

verus! {

/// The two damage events of one contact: each top deals
/// `k × impulse` to the other.
pub open spec fn spec_contact_damage(msg: CollisionMessage, k: Fixed) -> (GameEvent, GameEvent) {
    (
        GameEvent::DealDamage {
            src: Some(msg.a),
            dst: msg.b,
            amount: k.mul(msg.impulse),
            kind: DamageKind::Collision,
        },
        GameEvent::DealDamage {
            src: Some(msg.b),
            dst: msg.a,
            amount: k.mul(msg.impulse),
            kind: DamageKind::Collision,
        },
    )
}

/// Turns one contact into its two damage events: see
/// [`spec_contact_damage`].
#[verifier::when_used_as_spec(spec_contact_damage)]
pub fn contact_damage(msg: CollisionMessage, k: Fixed) -> (r: (GameEvent, GameEvent))
    ensures
        r == spec_contact_damage(msg, k),
{
    let amount = k.mul(msg.impulse);
    (
        GameEvent::DealDamage {
            src: Some(msg.a),
            dst: msg.b,
            amount,
            kind: DamageKind::Collision,
        },
        GameEvent::DealDamage {
            src: Some(msg.b),
            dst: msg.a,
            amount,
            kind: DamageKind::Collision,
        },
    )
}

/// The damage events of a tick's contacts: two for each contact, in the
/// order of the contacts.
pub open spec fn collision_damage(msgs: Seq<CollisionMessage>, k: Fixed) -> Seq<GameEvent>
    decreases msgs.len(),
{
    if msgs.len() == 0 {
        Seq::empty()
    } else {
        collision_damage(msgs.drop_last(), k).push(contact_damage(msgs.last(), k).0).push(
            contact_damage(msgs.last(), k).1,
        )
    }
}

/// Symmetry of collision damage: contact `i` with impulse `I` yields
/// exactly two damage events, next to each other, both of amount `k × I`,
/// one from each top to the other.
pub proof fn lemma_collision_damage_symmetric(msgs: Seq<CollisionMessage>, k: Fixed, i: int)
    requires
        0 <= i < msgs.len(),
    ensures
        collision_damage(msgs, k).len() == 2 * msgs.len(),
        collision_damage(msgs, k)[2 * i] == (GameEvent::DealDamage {
            src: Some(msgs[i].a),
            dst: msgs[i].b,
            amount: k.mul(msgs[i].impulse),
            kind: DamageKind::Collision,
        }),
        collision_damage(msgs, k)[2 * i + 1] == (GameEvent::DealDamage {
            src: Some(msgs[i].b),
            dst: msgs[i].a,
            amount: k.mul(msgs[i].impulse),
            kind: DamageKind::Collision,
        }),
    decreases msgs.len(),
{
    lemma_collision_damage_len(msgs, k);
    if i < msgs.len() - 1 {
        lemma_collision_damage_len(msgs.drop_last(), k);
        lemma_collision_damage_symmetric(msgs.drop_last(), k, i);
    } else {
        lemma_collision_damage_len(msgs.drop_last(), k);
    }
}

proof fn lemma_collision_damage_len(msgs: Seq<CollisionMessage>, k: Fixed)
    ensures
        collision_damage(msgs, k).len() == 2 * msgs.len(),
    decreases msgs.len(),
{
    if msgs.len() > 0 {
        lemma_collision_damage_len(msgs.drop_last(), k);
    }
}

/// Turns this tick's contacts into damage events.
pub fn generate_collision_damage(
    tuning: &Tuning,
    collisions: &Vec<CollisionMessage>,
    events: &mut Vec<GameEvent>,
)
    ensures
        final(events)@ == old(events)@ + collision_damage(collisions@, tuning.collision_damage_k),
        events_wf(old(events)@) ==> events_wf(final(events)@),
{
    let n = collisions.len();
    let mut i: usize = 0;
    while i < n
        invariant
            i <= n,
            n == collisions.len(),
            events@ == old(events)@ + collision_damage(
                collisions@.take(i as int),
                tuning.collision_damage_k,
            ),
            events_wf(old(events)@) ==> events_wf(events@),
        decreases n - i,
    {
        proof {
            assert(collisions@.take(i as int + 1).drop_last() == collisions@.take(i as int));
        }
        let pair = contact_damage(collisions[i], tuning.collision_damage_k);
        events.push(pair.0);
        events.push(pair.1);
        i += 1;
    }
    assert(collisions@.take(n as int) == collisions@);
}

/// The damage that lands when `amount` is dealt by `src` to `target`: the
/// base amount times the source's damage-out multiplier and its damage
/// boost (where the source is a top), times the target's damage-in
/// multiplier, and at least 0.
pub open spec fn damage_landed(
    tops: Seq<TopEntity>,
    src: Option<EntityId>,
    target: TopEntity,
    amount: Fixed,
) -> Fixed {
    let dealt = match src {
        Some(s) => match top_index(tops, s) {
            Some(i) => amount.mul(tops[i].stats.damage_out_mult.0).mul(
                tops[i].damage_boost.multiplier,
            ),
            None => amount,
        },
        None => amount,
    };
    dealt.mul(target.stats.damage_in_mult.0).max(Fixed::zero())
}

/// The tops after one event, as far as it deals damage. Damage to an
/// entity that is no top is dropped.
pub open spec fn with_damage_event(tops: Seq<TopEntity>, e: GameEvent) -> Seq<TopEntity> {
    match e {
        GameEvent::DealDamage { src, dst, amount, kind } => match top_index(tops, dst) {
            Some(d) => tops.update(
                d,
                TopEntity {
                    spin_hp: tops[d].spin_hp.sub_clamped(damage_landed(tops, src, tops[d], amount)),
                    ..tops[d]
                },
            ),
            None => tops,
        },
        _ => tops,
    }
}

/// The tops after the damage events among `events` have been applied in
/// order.
pub open spec fn with_damage_events(tops: Seq<TopEntity>, events: Seq<GameEvent>) -> Seq<TopEntity>
    decreases events.len(),
{
    if events.len() == 0 {
        tops
    } else {
        with_damage_event(with_damage_events(tops, events.drop_last()), events.last())
    }
}

/// Applies one event to the tops, as far as it deals damage.
pub fn apply_damage_event(e: GameEvent, tops: &mut Vec<TopEntity>)
    ensures
        final(tops)@ == with_damage_event(old(tops)@, e),
        final(tops)@.len() == old(tops)@.len(),
        tops_wf(old(tops)@) ==> tops_wf(final(tops)@),
        same_ids(old(tops)@, final(tops)@),
        forall|i: int|
            0 <= i < old(tops)@.len() ==> (#[trigger] final(tops)@[i]).spin_hp.0.0 <= old(
                tops,
            )@[i].spin_hp.0.0 || final(tops)@[i].spin_hp.0.0 == 0,
{
    match e {
        GameEvent::DealDamage { src, dst, amount, kind } => {
            let mut dealt = amount;
            match src {
                Some(s) => {
                    match find_top(tops, s) {
                        Some(i) => {
                            dealt = dealt.mul(tops[i].stats.damage_out_mult.0).mul(
                                tops[i].damage_boost.multiplier,
                            );
                        },
                        None => {},
                    }
                },
                None => {},
            }
            match find_top(tops, dst) {
                Some(d) => {
                    let target = tops[d];
                    let landed = dealt.mul(target.stats.damage_in_mult.0).max(Fixed::zero());
                    let hit = TopEntity { spin_hp: target.spin_hp.sub_clamped(landed), ..target };
                    tops.set(d, hit);
                },
                None => {},
            }
        },
        _ => {},
    }
}

/// Applies the damage events of the tick to the tops' spin, in queue
/// order.
pub fn apply_damage_events(events: &Vec<GameEvent>, tops: &mut Vec<TopEntity>)
    ensures
        final(tops)@ == with_damage_events(old(tops)@, events@),
        final(tops)@.len() == old(tops)@.len(),
        tops_wf(old(tops)@) ==> tops_wf(final(tops)@),
        same_ids(old(tops)@, final(tops)@),
{
    let n = events.len();
    let mut i: usize = 0;
    while i < n
        invariant
            i <= n,
            n == events.len(),
            tops@ == with_damage_events(old(tops)@, events@.take(i as int)),
            tops@.len() == old(tops)@.len(),
            tops_wf(old(tops)@) ==> tops_wf(tops@),
            same_ids(old(tops)@, tops@),
        decreases n - i,
    {
        proof {
            assert(events@.take(i as int + 1).drop_last() == events@.take(i as int));
        }
        apply_damage_event(events[i], tops);
        i += 1;
    }
    assert(events@.take(n as int) == events@);
}

impl TopEntity {
    pub open spec fn spec_controlled(self, control: ControlEffect, from: Option<Vec2>) -> TopEntity {
        let velocity = match control.apply_reduction(self.stats.control_multiplier) {
            ControlEffect::Knockback { distance } => match from {
                Some(origin) => self.velocity.add(
                    self.position.sub(origin).normalize_or_zero().scale(distance),
                ).clamp_length(self.stats.move_speed.0),
                None => self.velocity,
            },
            _ => self.velocity,
        };
        TopEntity {
            control: self.control.with_control(control, self.stats.control_multiplier),
            velocity,
            ..self
        }
    }

    /// The top after a control effect has landed on it. The effect is
    /// reduced by the top's control multiplier. A stun or slow goes to
    /// the control state, where it replaces a timer only if it lasts
    /// longer. A knockback from a source standing at `from` is an impulse
    /// of the reduced distance, away from the source, added to the
    /// velocity at once; the speed is then clamped to the move speed.
    #[verifier::when_used_as_spec(spec_controlled)]
    pub fn controlled(self, control: ControlEffect, from: Option<Vec2>) -> (r: TopEntity)
        ensures
            r == self.spec_controlled(control, from),
            self.wf() && control.wf() ==> r.wf(),
            r.id == self.id,
            r.spin_hp == self.spin_hp,
            r.position == self.position,
    {
        let velocity = match control.apply_reduction(self.stats.control_multiplier) {
            ControlEffect::Knockback { distance } => match from {
                Some(origin) => self.velocity.add(
                    self.position.sub(origin).normalize_or_zero().scale(distance),
                ).clamp_length(self.stats.move_speed.0),
                None => self.velocity,
            },
            _ => self.velocity,
        };
        let mut state = self.control;
        state.apply_control(control, self.stats.control_multiplier);
        TopEntity { control: state, velocity, ..self }
    }
}

/// The tops after one event, as far as it applies a control effect. The
/// target must be a top with spin left; else the event is dropped.
pub open spec fn with_control_event(tops: Seq<TopEntity>, e: GameEvent) -> Seq<TopEntity> {
    match e {
        GameEvent::ApplyControl { src, dst, control } => match top_index(tops, dst) {
            Some(d) => if tops[d].spin_hp.is_alive() {
                let from = match src {
                    Some(s) => match top_index(tops, s) {
                        Some(i) => Some(tops[i].position),
                        None => None,
                    },
                    None => None,
                };
                tops.update(d, tops[d].controlled(control, from))
            } else {
                tops
            },
            None => tops,
        },
        _ => tops,
    }
}

/// The tops after the control events among `events` have been applied in
/// order.
pub open spec fn with_control_events(tops: Seq<TopEntity>, events: Seq<GameEvent>) -> Seq<
    TopEntity,
>
    decreases events.len(),
{
    if events.len() == 0 {
        tops
    } else {
        with_control_event(with_control_events(tops, events.drop_last()), events.last())
    }
}

/// Applies one event to the tops, as far as it applies a control effect.
pub fn apply_control_event(e: GameEvent, tops: &mut Vec<TopEntity>)
    ensures
        final(tops)@ == with_control_event(old(tops)@, e),
        final(tops)@.len() == old(tops)@.len(),
        same_ids(old(tops)@, final(tops)@),
        tops_wf(old(tops)@) && (e matches GameEvent::ApplyControl { control, .. }
            ==> control.wf()) ==> tops_wf(final(tops)@),
{
    match e {
        GameEvent::ApplyControl { src, dst, control } => {
            match find_top(tops, dst) {
                Some(d) => {
                    let target = tops[d];
                    if target.spin_hp.is_alive() {
                        let from = match src {
                            Some(s) => match find_top(tops, s) {
                                Some(i) => Some(tops[i].position),
                                None => None,
                            },
                            None => None,
                        };
                        tops.set(d, target.controlled(control, from));
                    }
                },
                None => {},
            }
        },
        _ => {},
    }
}

/// Applies the control events of the tick to the tops, in queue order.
pub fn apply_control_events(events: &Vec<GameEvent>, tops: &mut Vec<TopEntity>)
    ensures
        final(tops)@ == with_control_events(old(tops)@, events@),
        final(tops)@.len() == old(tops)@.len(),
        same_ids(old(tops)@, final(tops)@),
        tops_wf(old(tops)@) && events_wf(events@) ==> tops_wf(final(tops)@),
{
    let n = events.len();
    let mut i: usize = 0;
    while i < n
        invariant
            i <= n,
            n == events.len(),
            tops@ == with_control_events(old(tops)@, events@.take(i as int)),
            tops@.len() == old(tops)@.len(),
            same_ids(old(tops)@, tops@),
            tops_wf(old(tops)@) && events_wf(events@) ==> tops_wf(tops@),
        decreases n - i,
    {
        proof {
            assert(events@.take(i as int + 1).drop_last() == events@.take(i as int));
        }
        apply_control_event(events[i], tops);
        i += 1;
    }
    assert(events@.take(n as int) == events@);
}

/// The two tops of a contact after they have exchanged momentum.
#[derive(Debug, Clone, Copy, PartialEq, Eq, Structural)]
pub struct ResolvedPair {
    pub a: TopEntity,
    pub b: TopEntity,
}

impl TopEntity {
    pub open spec fn spec_inverse_mass(self) -> Fixed {
        Fixed::one().div(Fixed::one().add(self.stats.stability.max(Fixed::zero())))
    }

    /// The inverse mass of the top, `1 / (1 + stability)`: the more stable,
    /// the heavier.
    #[verifier::when_used_as_spec(spec_inverse_mass)]
    pub fn inverse_mass(self) -> (r: Fixed)
        ensures
            r == self.spec_inverse_mass(),
    {
        Fixed::one().div(Fixed::one().add(self.stats.stability.max(Fixed::zero())))
    }
}

/// Tops `a` and `b` after their contact along `normal` (from `a` to `b`)
/// has been resolved with restitution `e`. Nothing changes unless they
/// still approach each other along the normal. Then the impulse
/// `j = (1 + e) (v_rel · n) / (inv_a + inv_b)` is taken from `a` and given
/// to `b`, each scaled by its inverse mass; if the tops overlap, they are
/// moved apart by the overlap, each in proportion to its inverse mass;
/// and both speeds are clamped to the tops' move speeds.
pub open spec fn spec_resolved_pair(a: TopEntity, b: TopEntity, normal: Vec2, e: Fixed) -> ResolvedPair {
    let inv_a = a.inverse_mass();
    let inv_b = b.inverse_mass();
    let inv_sum = inv_a.add(inv_b);
    let closing = a.velocity.sub(b.velocity).dot(normal);
    if inv_sum.0 <= 0 || closing.0 <= 0 {
        ResolvedPair { a, b }
    } else {
        let j = Fixed::one().add(e).mul(closing).div(inv_sum);
        let delta = b.position.sub(a.position);
        let dist = delta.length();
        let min_dist = a.stats.radius.0.add(b.stats.radius.0);
        let apart = dist.0 < min_dist.0 && dist.0 > 0;
        let overlap = min_dist.sub(dist);
        let sep = delta.normalize_or_zero();
        ResolvedPair {
            a: TopEntity {
                velocity: a.velocity.sub(normal.scale(j.mul(inv_a))).clamp_length(
                    a.stats.move_speed.0,
                ),
                position: if apart {
                    a.position.sub(sep.scale(overlap.mul(inv_a.div(inv_sum))))
                } else {
                    a.position
                },
                ..a
            },
            b: TopEntity {
                velocity: b.velocity.add(normal.scale(j.mul(inv_b))).clamp_length(
                    b.stats.move_speed.0,
                ),
                position: if apart {
                    b.position.add(sep.scale(overlap.mul(inv_b.div(inv_sum))))
                } else {
                    b.position
                },
                ..b
            },
        }
    }
}

/// Resolves the contact of two tops: see [`spec_resolved_pair`].
#[verifier::when_used_as_spec(spec_resolved_pair)]
pub fn resolved_pair(a: TopEntity, b: TopEntity, normal: Vec2, e: Fixed) -> (r: ResolvedPair)
    ensures
        r == spec_resolved_pair(a, b, normal, e),
        a.wf() ==> r.a.wf(),
        b.wf() ==> r.b.wf(),
        r.a.id == a.id,
        r.b.id == b.id,
        r.a.spin_hp == a.spin_hp,
        r.b.spin_hp == b.spin_hp,
{
    let inv_a = a.inverse_mass();
    let inv_b = b.inverse_mass();
    let inv_sum = inv_a.add(inv_b);
    let closing = a.velocity.sub(b.velocity).dot(normal);
    if inv_sum.0 <= 0 || closing.0 <= 0 {
        return ResolvedPair { a, b };
    }
    let j = Fixed::one().add(e).mul(closing).div(inv_sum);
    let delta = b.position.sub(a.position);
    let dist = delta.length();
    let min_dist = a.stats.radius.0.add(b.stats.radius.0);
    let apart = dist.0 < min_dist.0 && dist.0 > 0;
    let overlap = min_dist.sub(dist);
    let sep = delta.normalize_or_zero();
    ResolvedPair {
        a: TopEntity {
            velocity: a.velocity.sub(normal.scale(j.mul(inv_a))).clamp_length(a.stats.move_speed.0),
            position: if apart {
                a.position.sub(sep.scale(overlap.mul(inv_a.div(inv_sum))))
            } else {
                a.position
            },
            ..a
        },
        b: TopEntity {
            velocity: b.velocity.add(normal.scale(j.mul(inv_b))).clamp_length(b.stats.move_speed.0),
            position: if apart {
                b.position.add(sep.scale(overlap.mul(inv_b.div(inv_sum))))
            } else {
                b.position
            },
            ..b
        },
    }
}

/// The tops after one contact has been resolved. Both tops of the contact
/// must be in the table, and at different places; else nothing changes.
pub open spec fn with_collision(tops: Seq<TopEntity>, msg: CollisionMessage, e: Fixed) -> Seq<
    TopEntity,
> {
    match (top_index(tops, msg.a), top_index(tops, msg.b)) {
        (Some(i), Some(j)) => if i != j {
            let pair = resolved_pair(tops[i], tops[j], msg.normal, e);
            tops.update(i, pair.a).update(j, pair.b)
        } else {
            tops
        },
        _ => tops,
    }
}

/// The tops after the contacts have been resolved in order.
pub open spec fn with_collisions(tops: Seq<TopEntity>, msgs: Seq<CollisionMessage>, e: Fixed) -> Seq<
    TopEntity,
>
    decreases msgs.len(),
{
    if msgs.len() == 0 {
        tops
    } else {
        with_collision(with_collisions(tops, msgs.drop_last(), e), msgs.last(), e)
    }
}

/// Resolves the contacts of the tick: the tops of each contact exchange
/// momentum and are moved apart. The restitution is the tuning's, held
/// in `[0, 1]`.
pub fn resolve_top_collisions(
    tuning: &Tuning,
    collisions: &Vec<CollisionMessage>,
    tops: &mut Vec<TopEntity>,
)
    ensures
        final(tops)@ == with_collisions(
            old(tops)@,
            collisions@,
            tuning.top_collisions_restitution.clamp(Fixed::zero(), Fixed::one()),
        ),
        final(tops)@.len() == old(tops)@.len(),
        tops_wf(old(tops)@) ==> tops_wf(final(tops)@),
        same_ids(old(tops)@, final(tops)@),
        forall|i: int|
            0 <= i < old(tops)@.len() ==> (#[trigger] final(tops)@[i]).spin_hp == old(
                tops,
            )@[i].spin_hp,
{
    let e = tuning.top_collisions_restitution.clamp(Fixed::zero(), Fixed::one());
    let n = collisions.len();
    let mut k: usize = 0;
    while k < n
        invariant
            k <= n,
            n == collisions.len(),
            tops@ == with_collisions(old(tops)@, collisions@.take(k as int), e),
            tops@.len() == old(tops)@.len(),
            tops_wf(old(tops)@) ==> tops_wf(tops@),
            same_ids(old(tops)@, tops@),
            forall|i: int|
                0 <= i < old(tops)@.len() ==> (#[trigger] tops@[i]).spin_hp == old(
                    tops,
                )@[i].spin_hp,
        decreases n - k,
    {
        proof {
            assert(collisions@.take(k as int + 1).drop_last() == collisions@.take(k as int));
        }
        let msg = collisions[k];
        match find_top(tops, msg.a) {
            Some(i) => {
                match find_top(tops, msg.b) {
                    Some(j) => {
                        if i != j {
                            let pair = resolved_pair(tops[i], tops[j], msg.normal, e);
                            tops.set(i, pair.a);
                            tops.set(j, pair.b);
                        }
                    },
                    None => {},
                }
            },
            None => {},
        }
        k += 1;
    }
    assert(collisions@.take(n as int) == collisions@);
}

} // verus!
