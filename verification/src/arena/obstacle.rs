//! Obstacles, and the lifecycle of obstacles and projectiles: spawning,
//! expiry and explicit despawn.

use vstd::prelude::*;
use crate::entity::{EntityId, ObstacleEntity, ProjectileEntity, TopEntity};
use crate::events::GameEvent;
use crate::fixed::Fixed;
use crate::physics::{same_ids, tops_wf};
use crate::stats::types::Seconds;
use crate::vector::Vec2;

verus! {

impl TopEntity {
    pub open spec fn spec_bounced_off(self, origin: Vec2, obstacle: ObstacleEntity) -> TopEntity {
        let dist = origin.distance(obstacle.position);
        let min_dist = self.stats.radius.0.add(obstacle.radius);
        if obstacle.solid && dist.0 < min_dist.0 && dist.0 > 0 {
            let normal = origin.sub(obstacle.position).normalize_or_zero();
            let position = self.position.add(normal.scale(min_dist.sub(dist)));
            let inward = normal.neg();
            if self.velocity.dot(inward).0 > 0 {
                TopEntity {
                    position,
                    velocity: self.velocity.reflected(inward).clamp_length(
                        self.stats.move_speed.0,
                    ),
                    ..self
                }
            } else {
                TopEntity { position, ..self }
            }
        } else {
            self
        }
    }

    /// The top after one obstacle has acted on it. `origin` is where the
    /// top stood when the obstacles began to act this tick: overlap is
    /// judged from there. A solid obstacle it overlaps pushes the top out
    /// by the overlap and, if the top was moving toward it, mirrors its
    /// velocity; the speed is then clamped to the top's move speed.
    #[verifier::when_used_as_spec(spec_bounced_off)]
    pub fn bounced_off(self, origin: Vec2, obstacle: ObstacleEntity) -> (r: TopEntity)
        ensures
            r == self.spec_bounced_off(origin, obstacle),
            self.wf() ==> r.wf(),
            r.id == self.id,
            r.spin_hp == self.spin_hp,
            r.stats == self.stats,
    {
        let dist = origin.distance(obstacle.position);
        let min_dist = self.stats.radius.0.add(obstacle.radius);
        if obstacle.solid && dist.0 < min_dist.0 && dist.0 > 0 {
            let normal = origin.sub(obstacle.position).normalize_or_zero();
            let position = self.position.add(normal.scale(min_dist.sub(dist)));
            let inward = normal.neg();
            if self.velocity.dot(inward).0 > 0 {
                TopEntity {
                    position,
                    velocity: self.velocity.reflected(inward).clamp_length(
                        self.stats.move_speed.0,
                    ),
                    ..self
                }
            } else {
                TopEntity { position, ..self }
            }
        } else {
            self
        }
    }

    /// The top after every obstacle has acted on it in table order.
    pub open spec fn spec_with_obstacle_bounces(self, obstacles: Seq<ObstacleEntity>) -> TopEntity
        decreases obstacles.len(),
    {
        if obstacles.len() == 0 {
            self
        } else {
            self.spec_with_obstacle_bounces(obstacles.drop_last()).bounced_off(
                self.position,
                obstacles.last(),
            )
        }
    }

    /// Lets every obstacle act on this top: see
    /// [`TopEntity::spec_with_obstacle_bounces`].
    pub fn with_obstacle_bounces(self, obstacles: &Vec<ObstacleEntity>) -> (r: TopEntity)
        ensures
            r == self.spec_with_obstacle_bounces(obstacles@),
            self.wf() ==> r.wf(),
            r.id == self.id,
            r.spin_hp == self.spin_hp,
    {
        let mut top = self;
        let n = obstacles.len();
        let mut j: usize = 0;
        while j < n
            invariant
                j <= n,
                n == obstacles.len(),
                top == self.spec_with_obstacle_bounces(obstacles@.take(j as int)),
                self.wf() ==> top.wf(),
                top.id == self.id,
                top.spin_hp == self.spin_hp,
            decreases n - j,
        {
            proof {
                assert(obstacles@.take(j as int + 1).drop_last() == obstacles@.take(j as int));
            }
            top = top.bounced_off(self.position, obstacles[j]);
            j += 1;
        }
        assert(obstacles@.take(n as int) == obstacles@);
        top
    }
}

/// Bounces every top off the solid obstacles it overlaps.
pub fn static_obstacle_bounce(tops: &mut Vec<TopEntity>, obstacles: &Vec<ObstacleEntity>)
    ensures
        final(tops)@.len() == old(tops)@.len(),
        forall|i: int|
            0 <= i < old(tops)@.len() ==> (#[trigger] final(tops)@[i]) == old(
                tops,
            )@[i].spec_with_obstacle_bounces(obstacles@),
        tops_wf(old(tops)@) ==> tops_wf(final(tops)@),
        same_ids(old(tops)@, final(tops)@),
{
    let n = tops.len();
    let mut i: usize = 0;
    while i < n
        invariant
            i <= n,
            n == tops.len(),
            n == old(tops)@.len(),
            forall|j: int|
                0 <= j < i ==> (#[trigger] tops@[j]) == old(tops)@[j].spec_with_obstacle_bounces(
                    obstacles@,
                ),
            forall|j: int| i <= j < n ==> (#[trigger] tops@[j]) == old(tops)@[j],
            tops_wf(old(tops)@) ==> tops_wf(tops@),
            same_ids(old(tops)@, tops@),
        decreases n - i,
    {
        let t = tops[i].with_obstacle_bounces(obstacles);
        tops.set(i, t);
        i += 1;
    }
}

/// The projectile a spawn event asks for, under identity `id`. Its
/// velocity is the event's direction times its speed.
pub open spec fn projectile_from(e: GameEvent, id: EntityId) -> ProjectileEntity
    recommends
        e is SpawnProjectile,
{
    match e {
        GameEvent::SpawnProjectile { src, position, direction, speed, damage, radius, lifetime } => {
            ProjectileEntity {
                id,
                position,
                velocity: direction.scale(speed),
                radius,
                damage,
                owner: src,
                lifetime: Seconds(lifetime),
            }
        },
        _ => arbitrary(),
    }
}

/// The projectiles the spawn events among `events` ask for, in order, with
/// identities counted up from `first_id`. The identity `u64::MAX` is never
/// given out: once the count has reached it, nothing more is spawned.
pub open spec fn spawned_projectiles(events: Seq<GameEvent>, first_id: int) -> Seq<
    ProjectileEntity,
>
    decreases events.len(),
{
    if events.len() == 0 {
        Seq::empty()
    } else {
        let rest = spawned_projectiles(events.drop_last(), first_id);
        if events.last() is SpawnProjectile && first_id + rest.len() < u64::MAX {
            rest.push(projectile_from(events.last(), EntityId((first_id + rest.len()) as u64)))
        } else {
            rest
        }
    }
}

/// Fresh identities: spawned projectiles are no more than the events, and
/// their identities count up from `first_id` without a gap, so each is
/// new and no two are alike.
pub proof fn lemma_spawned_projectiles(events: Seq<GameEvent>, first_id: int)
    requires
        0 <= first_id,
    ensures
        spawned_projectiles(events, first_id).len() <= events.len(),
        forall|k: int|
            0 <= k < spawned_projectiles(events, first_id).len() ==> (#[trigger] spawned_projectiles(
                events,
                first_id,
            )[k]).id.0 == first_id + k,
    decreases events.len(),
{
    if events.len() > 0 {
        lemma_spawned_projectiles(events.drop_last(), first_id);
    }
}

/// Makes a projectile for every spawn event, each under a fresh identity.
pub fn spawn_projectiles(
    events: &Vec<GameEvent>,
    projectiles: &mut Vec<ProjectileEntity>,
    next_id: &mut u64,
)
    ensures
        final(projectiles)@ == old(projectiles)@ + spawned_projectiles(
            events@,
            *old(next_id) as int,
        ),
        *final(next_id) == *old(next_id) + spawned_projectiles(events@, *old(next_id) as int).len(),
{
    let n = events.len();
    let mut i: usize = 0;
    while i < n
        invariant
            i <= n,
            n == events.len(),
            projectiles@ == old(projectiles)@ + spawned_projectiles(
                events@.take(i as int),
                *old(next_id) as int,
            ),
            *next_id == *old(next_id) + spawned_projectiles(
                events@.take(i as int),
                *old(next_id) as int,
            ).len(),
        decreases n - i,
    {
        proof {
            assert(events@.take(i as int + 1).drop_last() == events@.take(i as int));
        }
        match events[i] {
            GameEvent::SpawnProjectile {
                src,
                position,
                direction,
                speed,
                damage,
                radius,
                lifetime,
            } => {
                if *next_id < u64::MAX {
                    projectiles.push(
                        ProjectileEntity {
                            id: EntityId(*next_id),
                            position,
                            velocity: direction.scale(speed),
                            radius,
                            damage,
                            owner: src,
                            lifetime: Seconds(lifetime),
                        },
                    );
                    *next_id = *next_id + 1;
                }
            },
            _ => {},
        }
        i += 1;
    }
    assert(events@.take(n as int) == events@);
}

/// The obstacle a spawn event asks for at time `now`, under identity `id`.
/// It ends `ttl` seconds from now and does not bounce tops.
pub open spec fn obstacle_from(e: GameEvent, id: EntityId, now: Fixed) -> ObstacleEntity
    recommends
        e is SpawnObstacle,
{
    match e {
        GameEvent::SpawnObstacle { src, position, radius, ttl, behavior } => ObstacleEntity {
            id,
            position,
            radius,
            behavior,
            owner: src,
            expires_at: Some(now.add(ttl)),
            solid: false,
        },
        _ => arbitrary(),
    }
}

/// The obstacles the spawn events among `events` ask for, in order, with
/// identities counted up from `first_id` and short of `u64::MAX`.
pub open spec fn spawned_obstacles(events: Seq<GameEvent>, first_id: int, now: Fixed) -> Seq<
    ObstacleEntity,
>
    decreases events.len(),
{
    if events.len() == 0 {
        Seq::empty()
    } else {
        let rest = spawned_obstacles(events.drop_last(), first_id, now);
        if events.last() is SpawnObstacle && first_id + rest.len() < u64::MAX {
            rest.push(obstacle_from(events.last(), EntityId((first_id + rest.len()) as u64), now))
        } else {
            rest
        }
    }
}

/// Fresh identities: spawned obstacles are no more than the events, and
/// their identities count up from `first_id` without a gap.
pub proof fn lemma_spawned_obstacles(events: Seq<GameEvent>, first_id: int, now: Fixed)
    requires
        0 <= first_id,
    ensures
        spawned_obstacles(events, first_id, now).len() <= events.len(),
        forall|k: int|
            0 <= k < spawned_obstacles(events, first_id, now).len() ==> (#[trigger] spawned_obstacles(
                events,
                first_id,
                now,
            )[k]).id.0 == first_id + k,
    decreases events.len(),
{
    if events.len() > 0 {
        lemma_spawned_obstacles(events.drop_last(), first_id, now);
    }
}

/// Makes an obstacle for every spawn event, each under a fresh identity.
pub fn spawn_obstacles(
    events: &Vec<GameEvent>,
    now: Fixed,
    obstacles: &mut Vec<ObstacleEntity>,
    next_id: &mut u64,
)
    ensures
        final(obstacles)@ == old(obstacles)@ + spawned_obstacles(
            events@,
            *old(next_id) as int,
            now,
        ),
        *final(next_id) == *old(next_id) + spawned_obstacles(
            events@,
            *old(next_id) as int,
            now,
        ).len(),
{
    let n = events.len();
    let mut i: usize = 0;
    while i < n
        invariant
            i <= n,
            n == events.len(),
            obstacles@ == old(obstacles)@ + spawned_obstacles(
                events@.take(i as int),
                *old(next_id) as int,
                now,
            ),
            *next_id == *old(next_id) + spawned_obstacles(
                events@.take(i as int),
                *old(next_id) as int,
                now,
            ).len(),
        decreases n - i,
    {
        proof {
            assert(events@.take(i as int + 1).drop_last() == events@.take(i as int));
        }
        match events[i] {
            GameEvent::SpawnObstacle { src, position, radius, ttl, behavior } => {
                if *next_id < u64::MAX {
                    obstacles.push(
                        ObstacleEntity {
                            id: EntityId(*next_id),
                            position,
                            radius,
                            behavior,
                            owner: src,
                            expires_at: Some(now.add(ttl)),
                            solid: false,
                        },
                    );
                    *next_id = *next_id + 1;
                }
            },
            _ => {},
        }
        i += 1;
    }
    assert(events@.take(n as int) == events@);
}

impl ObstacleEntity {
    pub open spec fn spec_is_expired(self, now: Fixed) -> bool {
        match self.expires_at {
            Some(t) => now.0 >= t.0,
            None => false,
        }
    }

    /// Whether the obstacle's time has come. One without an expiry never
    /// expires.
    #[verifier::when_used_as_spec(spec_is_expired)]
    pub fn is_expired(self, now: Fixed) -> (r: bool)
        ensures
            r == self.spec_is_expired(now),
    {
        match self.expires_at {
            Some(t) => now.0 >= t.0,
            None => false,
        }
    }
}

/// The test an obstacle passes while its time has not come.
pub open spec fn obstacle_live_pred(now: Fixed) -> spec_fn(ObstacleEntity) -> bool {
    |o: ObstacleEntity| !o.is_expired(now)
}

/// The test an obstacle passes once its time has come.
pub open spec fn obstacle_expired_pred(now: Fixed) -> spec_fn(ObstacleEntity) -> bool {
    |o: ObstacleEntity| o.is_expired(now)
}

/// The test a projectile passes while it has lifetime left.
pub open spec fn projectile_live_pred() -> spec_fn(ProjectileEntity) -> bool {
    |p: ProjectileEntity| !p.lifetime.is_expired()
}

/// The test a projectile passes once its lifetime has run out.
pub open spec fn projectile_expired_pred() -> spec_fn(ProjectileEntity) -> bool {
    |p: ProjectileEntity| p.lifetime.is_expired()
}

/// The identities of the obstacles that a cleanup at `now` despawns.
pub open spec fn expired_obstacle_ids(obstacles: Seq<ObstacleEntity>, now: Fixed) -> Seq<EntityId> {
    obstacles.filter(obstacle_expired_pred(now)).map_values(|o: ObstacleEntity| o.id)
}

/// The identities of the projectiles that a cleanup despawns.
pub open spec fn expired_projectile_ids(projectiles: Seq<ProjectileEntity>) -> Seq<EntityId> {
    projectiles.filter(projectile_expired_pred()).map_values(|p: ProjectileEntity| p.id)
}

/// Despawns the obstacles whose expiry has passed and the projectiles
/// whose lifetime has run out. Returns the identities it despawned,
/// obstacles first, each group in table order.
pub fn cleanup_ttl(
    now: Fixed,
    obstacles: &mut Vec<ObstacleEntity>,
    projectiles: &mut Vec<ProjectileEntity>,
) -> (despawned: Vec<EntityId>)
    ensures
        final(obstacles)@ == old(obstacles)@.filter(obstacle_live_pred(now)),
        final(projectiles)@ == old(projectiles)@.filter(projectile_live_pred()),
        despawned@ == expired_obstacle_ids(old(obstacles)@, now) + expired_projectile_ids(
            old(projectiles)@,
        ),
{
    let mut despawned: Vec<EntityId> = Vec::new();
    let n = obstacles.len();
    let mut kept: Vec<ObstacleEntity> = Vec::new();
    let mut i: usize = 0;
    while i < n
        invariant
            i <= n,
            n == obstacles.len(),
            obstacles@ == old(obstacles)@,
            kept@ == obstacles@.take(i as int).filter(obstacle_live_pred(now)),
            despawned@ == expired_obstacle_ids(obstacles@.take(i as int), now),
        decreases n - i,
    {
        proof {
            assert(obstacles@.take(i as int + 1).drop_last() == obstacles@.take(i as int));
            reveal(Seq::filter);
        }
        let o = obstacles[i];
        if o.is_expired(now) {
            despawned.push(o.id);
        } else {
            kept.push(o);
        }
        i += 1;
    }
    assert(obstacles@.take(n as int) == obstacles@);
    *obstacles = kept;

    let m = projectiles.len();
    let mut kept_p: Vec<ProjectileEntity> = Vec::new();
    let ghost first = despawned@;
    let mut j: usize = 0;
    while j < m
        invariant
            j <= m,
            m == projectiles.len(),
            projectiles@ == old(projectiles)@,
            kept_p@ == projectiles@.take(j as int).filter(projectile_live_pred()),
            despawned@ == first + expired_projectile_ids(projectiles@.take(j as int)),
        decreases m - j,
    {
        proof {
            assert(projectiles@.take(j as int + 1).drop_last() == projectiles@.take(j as int));
            reveal(Seq::filter);
        }
        let p = projectiles[j];
        if p.lifetime.is_expired() {
            despawned.push(p.id);
        } else {
            kept_p.push(p);
        }
        j += 1;
    }
    assert(projectiles@.take(m as int) == projectiles@);
    *projectiles = kept_p;
    despawned
}

/// Whether `events` holds a request to despawn the entity `id`.
pub open spec fn despawn_requested(events: Seq<GameEvent>, id: EntityId) -> bool {
    exists|i: int| 0 <= i < events.len() && #[trigger] events[i] == (GameEvent::DespawnEntity {
        entity: id,
    })
}

/// The test a projectile passes while nothing asks for its despawn.
pub open spec fn projectile_unrequested_pred(events: Seq<GameEvent>) -> spec_fn(
    ProjectileEntity,
) -> bool {
    |p: ProjectileEntity| !despawn_requested(events, p.id)
}

/// The test an obstacle passes while nothing asks for its despawn.
pub open spec fn obstacle_unrequested_pred(events: Seq<GameEvent>) -> spec_fn(ObstacleEntity) -> bool {
    |o: ObstacleEntity| !despawn_requested(events, o.id)
}

/// Whether `events` asks for the despawn of `id`.
pub fn is_despawn_requested(events: &Vec<GameEvent>, id: EntityId) -> (r: bool)
    ensures
        r == despawn_requested(events@, id),
{
    let n = events.len();
    let mut i: usize = 0;
    while i < n
        invariant
            i <= n,
            n == events.len(),
            forall|k: int|
                0 <= k < i ==> #[trigger] events@[k] != (GameEvent::DespawnEntity { entity: id }),
        decreases n - i,
    {
        match events[i] {
            GameEvent::DespawnEntity { entity } => {
                if entity.0 == id.0 {
                    assert(events@[i as int] == (GameEvent::DespawnEntity { entity: id }));
                    return true;
                }
            },
            _ => {},
        }
        i += 1;
    }
    false
}

/// The test a projectile passes once its despawn is asked for.
pub open spec fn projectile_requested_pred(events: Seq<GameEvent>) -> spec_fn(ProjectileEntity) -> bool {
    |p: ProjectileEntity| despawn_requested(events, p.id)
}

/// The test an obstacle passes once its despawn is asked for.
pub open spec fn obstacle_requested_pred(events: Seq<GameEvent>) -> spec_fn(ObstacleEntity) -> bool {
    |o: ObstacleEntity| despawn_requested(events, o.id)
}

/// The identities that the despawn requests among `events` remove:
/// those of the projectiles they name, then those of the obstacles.
pub open spec fn requested_ids(
    events: Seq<GameEvent>,
    projectiles: Seq<ProjectileEntity>,
    obstacles: Seq<ObstacleEntity>,
) -> Seq<EntityId> {
    projectiles.filter(projectile_requested_pred(events)).map_values(|p: ProjectileEntity| p.id)
        + obstacles.filter(obstacle_requested_pred(events)).map_values(|o: ObstacleEntity| o.id)
}

/// Carries out the despawn requests among `events`: every projectile and
/// obstacle that one of them names is removed, the others stay in their
/// order. A request that names nothing present does nothing. Returns the
/// identities it despawned, projectiles first.
pub fn handle_despawn_events(
    events: &Vec<GameEvent>,
    projectiles: &mut Vec<ProjectileEntity>,
    obstacles: &mut Vec<ObstacleEntity>,
) -> (despawned: Vec<EntityId>)
    ensures
        final(projectiles)@ == old(projectiles)@.filter(projectile_unrequested_pred(events@)),
        final(obstacles)@ == old(obstacles)@.filter(obstacle_unrequested_pred(events@)),
        despawned@ == requested_ids(events@, old(projectiles)@, old(obstacles)@),
{
    let mut despawned: Vec<EntityId> = Vec::new();
    let n = projectiles.len();
    let mut kept_p: Vec<ProjectileEntity> = Vec::new();
    let mut i: usize = 0;
    while i < n
        invariant
            i <= n,
            n == projectiles.len(),
            projectiles@ == old(projectiles)@,
            kept_p@ == projectiles@.take(i as int).filter(projectile_unrequested_pred(events@)),
            despawned@ == projectiles@.take(i as int).filter(
                projectile_requested_pred(events@),
            ).map_values(|p: ProjectileEntity| p.id),
        decreases n - i,
    {
        proof {
            assert(projectiles@.take(i as int + 1).drop_last() == projectiles@.take(i as int));
            reveal(Seq::filter);
        }
        let p = projectiles[i];
        if is_despawn_requested(events, p.id) {
            despawned.push(p.id);
        } else {
            kept_p.push(p);
        }
        i += 1;
    }
    assert(projectiles@.take(n as int) == projectiles@);
    *projectiles = kept_p;

    let ghost first = despawned@;
    let m = obstacles.len();
    let mut kept_o: Vec<ObstacleEntity> = Vec::new();
    let mut j: usize = 0;
    while j < m
        invariant
            j <= m,
            m == obstacles.len(),
            obstacles@ == old(obstacles)@,
            kept_o@ == obstacles@.take(j as int).filter(obstacle_unrequested_pred(events@)),
            despawned@ == first + obstacles@.take(j as int).filter(
                obstacle_requested_pred(events@),
            ).map_values(|o: ObstacleEntity| o.id),
        decreases m - j,
    {
        proof {
            assert(obstacles@.take(j as int + 1).drop_last() == obstacles@.take(j as int));
            reveal(Seq::filter);
        }
        let o = obstacles[j];
        if is_despawn_requested(events, o.id) {
            despawned.push(o.id);
        } else {
            kept_o.push(o);
        }
        j += 1;
    }
    assert(obstacles@.take(m as int) == obstacles@);
    *obstacles = kept_o;
    despawned
}

} // verus!
