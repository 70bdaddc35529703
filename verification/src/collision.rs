//! Collision detection: which tops touch each other, an obstacle or a
//! projectile this tick. Detection changes nothing; it queues facts.

use vstd::prelude::*;
use crate::config::tuning::Tuning;
use crate::entity::{ObstacleEntity, ProjectileEntity, TopEntity};
use crate::events::{events_wf, CollisionMessage, GameEvent};
use crate::stats::types::{CollisionBehavior, DamageKind};

verus! {

/// The contact between tops `a` and `b`, if they make one: their centres
/// are closer than their radii together but not in one place, and they
/// approach each other along the line between them. The normal points
/// from `a` to `b`; the impulse is the closing speed along it.
pub open spec fn spec_top_contact(a: TopEntity, b: TopEntity) -> Option<CollisionMessage> {
    let dist = a.position.distance(b.position);
    let min_dist = a.stats.radius.0.add(b.stats.radius.0);
    if dist.0 < min_dist.0 && dist.0 > 0 {
        let normal = b.position.sub(a.position).normalize_or_zero();
        let impulse = a.velocity.sub(b.velocity).dot(normal);
        if impulse.0 > 0 {
            Some(CollisionMessage { a: a.id, b: b.id, impulse, normal })
        } else {
            None
        }
    } else {
        None
    }
}

/// Tests two tops for a contact: see [`spec_top_contact`].
#[verifier::when_used_as_spec(spec_top_contact)]
pub fn top_contact(a: TopEntity, b: TopEntity) -> (r: Option<CollisionMessage>)
    ensures
        r == spec_top_contact(a, b),
        r matches Some(c) ==> c.a == a.id && c.b == b.id && c.impulse.0 > 0 && c.normal.norm_sq()
            <= crate::fixed::SCALE * crate::fixed::SCALE,
{
    let dist = a.position.distance(b.position);
    let min_dist = a.stats.radius.0.add(b.stats.radius.0);
    if dist.0 < min_dist.0 && dist.0 > 0 {
        let normal = b.position.sub(a.position).normalize_or_zero();
        let impulse = a.velocity.sub(b.velocity).dot(normal);
        if impulse.0 > 0 {
            Some(CollisionMessage { a: a.id, b: b.id, impulse, normal })
        } else {
            None
        }
    } else {
        None
    }
}

/// The contacts of top `i` with the tops after it and before `upto`, in
/// table order.
pub open spec fn contacts_of(tops: Seq<TopEntity>, i: int, upto: int) -> Seq<CollisionMessage>
    decreases upto - i,
{
    if upto <= i + 1 {
        Seq::empty()
    } else {
        let rest = contacts_of(tops, i, upto - 1);
        match top_contact(tops[i], tops[upto - 1]) {
            Some(c) => rest.push(c),
            None => rest,
        }
    }
}

/// The contacts of the first `k` tops, each with every top after it: one
/// test per unordered pair.
pub open spec fn contacts_upto(tops: Seq<TopEntity>, k: int) -> Seq<CollisionMessage>
    decreases k,
{
    if k <= 0 {
        Seq::empty()
    } else {
        contacts_upto(tops, k - 1) + contacts_of(tops, k - 1, tops.len() as int)
    }
}

/// All contacts between tops this tick.
pub open spec fn top_contacts(tops: Seq<TopEntity>) -> Seq<CollisionMessage> {
    contacts_upto(tops, tops.len() as int)
}

/// The damage an obstacle deals to a top this tick, if any: the obstacle
/// damages on contact and the two overlap. There is no cooldown.
pub open spec fn spec_obstacle_hit(top: TopEntity, obstacle: ObstacleEntity, tuning: &Tuning) -> Option<
    GameEvent,
> {
    if top.touches(obstacle.position, obstacle.radius) && obstacle.behavior
        == CollisionBehavior::DamageOnHit {
        Some(
            GameEvent::DealDamage {
                src: Some(obstacle.id),
                dst: top.id,
                amount: tuning.obstacle_damage,
                kind: DamageKind::Obstacle,
            },
        )
    } else {
        None
    }
}

/// Tests a top against an obstacle: see [`spec_obstacle_hit`].
#[verifier::when_used_as_spec(spec_obstacle_hit)]
pub fn obstacle_hit(top: TopEntity, obstacle: ObstacleEntity, tuning: &Tuning) -> (r: Option<
    GameEvent,
>)
    ensures
        r == spec_obstacle_hit(top, obstacle, tuning),
{
    if top.touches(obstacle.position, obstacle.radius) {
        match obstacle.behavior {
            CollisionBehavior::DamageOnHit => Some(
                GameEvent::DealDamage {
                    src: Some(obstacle.id),
                    dst: top.id,
                    amount: tuning.obstacle_damage,
                    kind: DamageKind::Obstacle,
                },
            ),
            _ => None,
        }
    } else {
        None
    }
}

/// The obstacle damage one top takes this tick, in obstacle order.
pub open spec fn obstacle_hits_of(top: TopEntity, obstacles: Seq<ObstacleEntity>, tuning: &Tuning) -> Seq<
    GameEvent,
>
    decreases obstacles.len(),
{
    if obstacles.len() == 0 {
        Seq::empty()
    } else {
        let rest = obstacle_hits_of(top, obstacles.drop_last(), tuning);
        match obstacle_hit(top, obstacles.last(), tuning) {
            Some(e) => rest.push(e),
            None => rest,
        }
    }
}

/// The obstacle damage of all tops this tick, top by top.
pub open spec fn obstacle_hits(tops: Seq<TopEntity>, obstacles: Seq<ObstacleEntity>, tuning: &Tuning) -> Seq<
    GameEvent,
>
    decreases tops.len(),
{
    if tops.len() == 0 {
        Seq::empty()
    } else {
        obstacle_hits(tops.drop_last(), obstacles, tuning) + obstacle_hits_of(
            tops.last(),
            obstacles,
            tuning,
        )
    }
}

/// Whether a projectile hits a top: the top is not its owner and the two
/// overlap.
pub open spec fn spec_projectile_strikes(p: ProjectileEntity, top: TopEntity) -> bool {
    top.id != p.owner && top.touches(p.position, p.radius)
}

/// Tests a projectile against a top: see [`spec_projectile_strikes`].
#[verifier::when_used_as_spec(spec_projectile_strikes)]
pub fn projectile_strikes(p: ProjectileEntity, top: TopEntity) -> (r: bool)
    ensures
        r == spec_projectile_strikes(p, top),
{
    top.id.0 != p.owner.0 && top.touches(p.position, p.radius)
}

/// The index of the first top the projectile hits, if it hits one.
pub open spec fn projectile_target(p: ProjectileEntity, tops: Seq<TopEntity>) -> Option<int>
    decreases tops.len(),
{
    if tops.len() == 0 {
        None
    } else {
        match projectile_target(p, tops.drop_last()) {
            Some(i) => Some(i),
            None => if projectile_strikes(p, tops.last()) {
                Some(tops.len() - 1)
            } else {
                None
            },
        }
    }
}

/// The events of one projectile this tick: on a hit, its damage to the
/// top it hit and its own despawn; else none. A projectile hits one top
/// at most.
pub open spec fn projectile_hit_events(p: ProjectileEntity, tops: Seq<TopEntity>) -> Seq<GameEvent> {
    match projectile_target(p, tops) {
        Some(i) => seq![
            GameEvent::DealDamage {
                src: Some(p.owner),
                dst: tops[i].id,
                amount: p.damage,
                kind: DamageKind::Projectile,
            },
            GameEvent::DespawnEntity { entity: p.id },
        ],
        None => Seq::empty(),
    }
}

/// The events of all projectiles this tick, projectile by projectile.
pub open spec fn projectile_hits(projectiles: Seq<ProjectileEntity>, tops: Seq<TopEntity>) -> Seq<
    GameEvent,
>
    decreases projectiles.len(),
{
    if projectiles.len() == 0 {
        Seq::empty()
    } else {
        projectile_hits(projectiles.drop_last(), tops) + projectile_hit_events(
            projectiles.last(),
            tops,
        )
    }
}

/// `projectile_target` is stable under looking at more tops once it has
/// found one.
proof fn lemma_projectile_target_found(p: ProjectileEntity, tops: Seq<TopEntity>, k: int)
    requires
        0 <= k < tops.len(),
        projectile_target(p, tops.take(k)) is None,
        projectile_strikes(p, tops[k]),
    ensures
        projectile_target(p, tops) == Some(k),
    decreases tops.len(),
{
    if tops.len() == k + 1 {
        assert(tops.drop_last() == tops.take(k));
    } else {
        assert(tops.drop_last().take(k) == tops.take(k));
        lemma_projectile_target_found(p, tops.drop_last(), k);
    }
}

/// Collision detection for one tick. Top against top: every unordered
/// pair is tested once, and each contact is queued on `collision_events`.
/// Top against obstacle: an obstacle that damages on contact deals the
/// tuning's obstacle damage to every top it overlaps. Projectile against
/// top: a projectile damages the first top, other than its owner, that it
/// overlaps, and asks for its own despawn.
pub fn detect_collisions(
    tuning: &Tuning,
    tops: &Vec<TopEntity>,
    obstacles: &Vec<ObstacleEntity>,
    projectiles: &Vec<ProjectileEntity>,
    collision_events: &mut Vec<CollisionMessage>,
    events: &mut Vec<GameEvent>,
)
    ensures
        final(collision_events)@ == old(collision_events)@ + top_contacts(tops@),
        final(events)@ == old(events)@ + obstacle_hits(tops@, obstacles@, tuning) + projectile_hits(
            projectiles@,
            tops@,
        ),
        events_wf(old(events)@) ==> events_wf(final(events)@),
{
    let n = tops.len();
    let mut i: usize = 0;
    while i < n
        invariant
            i <= n,
            n == tops.len(),
            collision_events@ == old(collision_events)@ + contacts_upto(tops@, i as int),
            events@ == old(events)@ + obstacle_hits(tops@.take(i as int), obstacles@, tuning),
            events_wf(old(events)@) ==> events_wf(events@),
        decreases n - i,
    {
        let a = tops[i];
        let ghost base = collision_events@;
        let mut j: usize = i + 1;
        while j < n
            invariant
                i < j <= n,
                n == tops.len(),
                a == tops@[i as int],
                collision_events@ == base + contacts_of(tops@, i as int, j as int),
            decreases n - j,
        {
            match top_contact(a, tops[j]) {
                Some(c) => {
                    collision_events.push(c);
                },
                None => {},
            }
            j += 1;
        }
        assert(collision_events@ == old(collision_events)@ + contacts_upto(tops@, i as int + 1));

        let ghost base_e = events@;
        let m = obstacles.len();
        let mut k: usize = 0;
        while k < m
            invariant
                k <= m,
                m == obstacles.len(),
                events@ == base_e + obstacle_hits_of(a, obstacles@.take(k as int), tuning),
                events_wf(old(events)@) ==> events_wf(events@),
            decreases m - k,
        {
            proof {
                assert(obstacles@.take(k as int + 1).drop_last() == obstacles@.take(k as int));
            }
            match obstacle_hit(a, obstacles[k], tuning) {
                Some(e) => {
                    events.push(e);
                },
                None => {},
            }
            k += 1;
        }
        proof {
            assert(obstacles@.take(m as int) == obstacles@);
            assert(tops@.take(i as int + 1).drop_last() == tops@.take(i as int));
            assert(events@ == old(events)@ + obstacle_hits(
                tops@.take(i as int + 1),
                obstacles@,
                tuning,
            ));
        }
        i += 1;
    }
    assert(tops@.take(n as int) == tops@);

    let ghost before = events@;
    let np = projectiles.len();
    let mut q: usize = 0;
    while q < np
        invariant
            q <= np,
            np == projectiles.len(),
            n == tops.len(),
            events@ == before + projectile_hits(projectiles@.take(q as int), tops@),
            events_wf(old(events)@) ==> events_wf(events@),
        decreases np - q,
    {
        let p = projectiles[q];
        let ghost base_q = events@;
        let mut t: usize = 0;
        let mut hit = false;
        while t < n && !hit
            invariant
                t <= n,
                n == tops.len(),
                !hit ==> projectile_target(p, tops@.take(t as int)) is None && events@ == base_q,
                hit ==> events@ == base_q + projectile_hit_events(p, tops@),
                events_wf(old(events)@) ==> events_wf(events@),
            decreases n - t + if hit { 0int } else { 1int },
        {
            let top = tops[t];
            if projectile_strikes(p, top) {
                proof {
                    lemma_projectile_target_found(p, tops@, t as int);
                }
                events.push(
                    GameEvent::DealDamage {
                        src: Some(p.owner),
                        dst: top.id,
                        amount: p.damage,
                        kind: DamageKind::Projectile,
                    },
                );
                events.push(GameEvent::DespawnEntity { entity: p.id });
                hit = true;
            } else {
                proof {
                    assert(tops@.take(t as int + 1).drop_last() == tops@.take(t as int));
                }
                t += 1;
            }
        }
        proof {
            if !hit {
                assert(tops@.take(n as int) == tops@);
                assert(projectile_hit_events(p, tops@) == Seq::<GameEvent>::empty());
            }
            assert(projectiles@.take(q as int + 1).drop_last() == projectiles@.take(q as int));
            assert(events@ == before + projectile_hits(projectiles@.take(q as int + 1), tops@));
        }
        q += 1;
    }
    assert(projectiles@.take(np as int) == projectiles@);
}

} // verus!
