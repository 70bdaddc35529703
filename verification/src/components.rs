//! The state a top carries besides its position and stats.

use vstd::prelude::*;
use crate::entity::EntityId;
use crate::events::StatusEffectKind;
use crate::fixed::Fixed;
use crate::stats::types::{ControlEffect, Seconds};

verus! {

/// The phases of a game session.
#[derive(Debug, Clone, Copy, PartialEq, Eq, Structural, Hash)]
pub enum GamePhase {
    MainMenu,
    Selection,
    PickMap,
    PickTop,
    Aiming,
    Battle,
    GameOver,
    DesignHub,
    EditTop,
    EditWeapon,
    EditShaft,
    EditChassis,
    EditScrew,
    ManageParts,
    AssembleBuild,
    PickDesignPart,
    DesignMapHub,
    EditMap,
}

impl Default for GamePhase {
    fn default() -> (r: GamePhase)
        ensures
            r == GamePhase::MainMenu,
    {
        GamePhase::MainMenu
    }
}

/// The launch direction a player picks before the battle.
#[derive(Debug, Clone, Copy, PartialEq, Eq, Structural)]
pub struct LaunchAim {
    pub angle: Fixed,
    pub confirmed: bool,
}

impl Default for LaunchAim {
    fn default() -> (r: LaunchAim)
        ensures
            r == (LaunchAim { angle: Fixed(0), confirmed: false }),
    {
        LaunchAim { angle: Fixed(0), confirmed: false }
    }
}

/// The control effects active on a top: a stun timer, a slow timer and the
/// ratio of the slow.
#[derive(Debug, Clone, Copy, PartialEq, Eq, Structural)]
pub struct ControlState {
    pub stun_remaining: Seconds,
    pub slow_remaining: Seconds,
    pub slow_ratio: Fixed,
}

impl Default for ControlState {
    fn default() -> (r: ControlState)
        ensures
            r == ControlState::neutral(),
    {
        ControlState {
            stun_remaining: Seconds(Fixed(0)),
            slow_remaining: Seconds(Fixed(0)),
            slow_ratio: Fixed(0),
        }
    }
}

impl ControlState {
    /// No effect active.
    pub open spec fn neutral() -> ControlState {
        ControlState {
            stun_remaining: Seconds(Fixed(0)),
            slow_remaining: Seconds(Fixed(0)),
            slow_ratio: Fixed(0),
        }
    }

    /// Both timers are durations.
    pub open spec fn wf(self) -> bool {
        self.stun_remaining.wf() && self.slow_remaining.wf()
    }

    pub open spec fn spec_is_stunned(&self) -> bool {
        !self.stun_remaining.is_expired()
    }

    /// Whether a stun is running.
    #[verifier::when_used_as_spec(spec_is_stunned)]
    pub fn is_stunned(&self) -> (r: bool)
        ensures
            r == self.spec_is_stunned(),
    {
        !self.stun_remaining.is_expired()
    }

    pub open spec fn spec_is_slowed(&self) -> bool {
        !self.slow_remaining.is_expired()
    }

    /// Whether a slow is running.
    #[verifier::when_used_as_spec(spec_is_slowed)]
    pub fn is_slowed(&self) -> (r: bool)
        ensures
            r == self.spec_is_slowed(),
    {
        !self.slow_remaining.is_expired()
    }

    /// The state after `dt` seconds: both timers run down, stopping at 0.
    pub open spec fn ticked(self, dt: Fixed) -> ControlState {
        ControlState {
            stun_remaining: self.stun_remaining.dec(dt),
            slow_remaining: self.slow_remaining.dec(dt),
            slow_ratio: self.slow_ratio,
        }
    }

    /// Runs both timers down by `dt`.
    pub fn tick(&mut self, dt: Fixed)
        ensures
            *final(self) == old(self).ticked(dt),
            final(self).wf(),
    {
        self.stun_remaining = self.stun_remaining.dec(dt);
        self.slow_remaining = self.slow_remaining.dec(dt);
    }

    /// The state after `control` lands on a top with control multiplier
    /// `control_multiplier`. The effect is first reduced; a stun or slow
    /// then replaces the running timer only where it lasts longer than what
    /// remains, and a slow that does so brings its ratio. A knockback
    /// leaves the timers alone.
    pub open spec fn with_control(
        self,
        control: ControlEffect,
        control_multiplier: Fixed,
    ) -> ControlState {
        match control.apply_reduction(control_multiplier) {
            ControlEffect::Stun { duration } => if duration.0.0 > self.stun_remaining.0.0 {
                ControlState { stun_remaining: duration, ..self }
            } else {
                self
            },
            ControlEffect::Slow { duration, ratio } => if duration.0.0 > self.slow_remaining.0.0 {
                ControlState { slow_remaining: duration, slow_ratio: ratio, ..self }
            } else {
                self
            },
            ControlEffect::Knockback { distance } => self,
        }
    }

    /// Lands a control effect: see [`ControlState::with_control`].
    pub fn apply_control(&mut self, control: ControlEffect, control_multiplier: Fixed)
        ensures
            *final(self) == old(self).with_control(control, control_multiplier),
            old(self).wf() ==> final(self).wf(),
            final(self).stun_remaining.0.0 >= old(self).stun_remaining.0.0,
            final(self).slow_remaining.0.0 >= old(self).slow_remaining.0.0,
    {
        let reduced = control.apply_reduction(control_multiplier);
        match reduced {
            ControlEffect::Stun { duration } => {
                if duration.0.0 > self.stun_remaining.0.0 {
                    self.stun_remaining = duration;
                }
            },
            ControlEffect::Slow { duration, ratio } => {
                if duration.0.0 > self.slow_remaining.0.0 {
                    self.slow_remaining = duration;
                    self.slow_ratio = ratio;
                }
            },
            ControlEffect::Knockback { distance } => {},
        }
    }
}

/// One running status effect.
#[derive(Debug, Clone, Copy, PartialEq, Eq, Structural)]
pub struct StatusEffectInstance {
    pub kind: StatusEffectKind,
    pub remaining: Seconds,
    pub magnitude: Fixed,
}

impl StatusEffectInstance {
    /// The instance after `dt` seconds.
    pub open spec fn ticked(self, dt: Fixed) -> StatusEffectInstance {
        StatusEffectInstance { remaining: self.remaining.dec(dt), ..self }
    }
}

/// The status effects running on a top.
#[derive(Debug)]
pub struct StatusEffects {
    pub effects: Vec<StatusEffectInstance>,
}

/// The effects still running after `dt` seconds, in their old order, each
/// with its time run down.
pub open spec fn ticked_effects(effects: Seq<StatusEffectInstance>, dt: Fixed) -> Seq<
    StatusEffectInstance,
>
    decreases effects.len(),
{
    if effects.len() == 0 {
        Seq::empty()
    } else {
        let rest = ticked_effects(effects.drop_last(), dt);
        let e = effects.last().ticked(dt);
        if e.remaining.is_expired() {
            rest
        } else {
            rest.push(e)
        }
    }
}

impl Default for StatusEffects {
    fn default() -> (r: StatusEffects)
        ensures
            r.effects@ == Seq::<StatusEffectInstance>::empty(),
    {
        StatusEffects { effects: Vec::new() }
    }
}

impl StatusEffects {
    /// No effect running.
    pub fn new() -> (r: StatusEffects)
        ensures
            r.effects@ == Seq::<StatusEffectInstance>::empty(),
    {
        StatusEffects { effects: Vec::new() }
    }

    /// Runs every effect down by `dt` and drops those that have run out.
    pub fn tick(&mut self, dt: Fixed)
        ensures
            final(self).effects@ == ticked_effects(old(self).effects@, dt),
    {
        let n = self.effects.len();
        let mut kept: Vec<StatusEffectInstance> = Vec::new();
        let mut i: usize = 0;
        while i < n
            invariant
                i <= n,
                n == self.effects.len(),
                self.effects@ == old(self).effects@,
                kept@ == ticked_effects(self.effects@.take(i as int), dt),
            decreases n - i,
        {
            proof {
                assert(self.effects@.take(i as int + 1).drop_last() == self.effects@.take(
                    i as int,
                ));
            }
            let e = self.effects[i];
            let t = StatusEffectInstance {
                kind: e.kind,
                remaining: e.remaining.dec(dt),
                magnitude: e.magnitude,
            };
            if !t.remaining.is_expired() {
                kept.push(t);
            }
            i += 1;
        }
        assert(self.effects@.take(n as int) == self.effects@);
        self.effects = kept;
    }
}

/// Seconds to wait between shots of a ranged weapon; it fires at 0.
#[derive(Debug, Clone, Copy, PartialEq, Eq, Structural)]
pub struct RangedFireTimer(pub Fixed);

impl Default for RangedFireTimer {
    fn default() -> (r: RangedFireTimer)
        ensures
            r == RangedFireTimer(Fixed(0)),
    {
        RangedFireTimer(Fixed(0))
    }
}

/// A device that steers nearby tops toward itself.
#[derive(Debug, Clone, Copy, PartialEq, Eq, Structural)]
pub struct GravityDevice {
    /// How far its pull reaches.
    pub radius: Fixed,
}

/// A zone that speeds up the tops that touch it.
#[derive(Debug, Clone, Copy, PartialEq, Eq, Structural)]
pub struct SpeedBoostZone {
    pub multiplier: Fixed,
    /// Seconds the boost lasts after the top has left.
    pub duration: Fixed,
}

/// A zone in which tops deal more damage.
#[derive(Debug, Clone, Copy, PartialEq, Eq, Structural)]
pub struct DamageBoostZone {
    pub multiplier: Fixed,
}

/// The speed boost on a top: its factor and the time it ends.
#[derive(Debug, Clone, Copy, PartialEq, Eq, Structural)]
pub struct SpeedBoostEffect {
    pub expires_at: Fixed,
    pub multiplier: Fixed,
}

/// The damage boost on a top; 1 while it is in no boost zone.
#[derive(Debug, Clone, Copy, PartialEq, Eq, Structural)]
pub struct DamageBoostActive {
    pub multiplier: Fixed,
}

/// One melee cooldown: the target and the seconds until it can be hit
/// again.
#[derive(Debug, Clone, Copy, PartialEq, Eq, Structural)]
pub struct HitCooldown {
    pub target: EntityId,
    pub remaining: Fixed,
}

/// Per-target hit cooldowns of a melee attacker.
#[derive(Debug)]
pub struct MeleeHitTracker {
    pub cooldowns: Vec<HitCooldown>,
}

/// The cooldown lists of a table of trackers, place by place.
pub open spec fn tracker_views(trackers: Seq<MeleeHitTracker>) -> Seq<Seq<HitCooldown>> {
    Seq::new(trackers.len(), |i: int| trackers[i].cooldowns@)
}

/// Whether no entry of `cooldowns` still blocks `target`.
pub open spec fn can_hit_in(cooldowns: Seq<HitCooldown>, target: EntityId) -> bool {
    forall|i: int|
        0 <= i < cooldowns.len() ==> !(#[trigger] cooldowns[i].target == target
            && cooldowns[i].remaining.0 > 0)
}

/// The cooldowns still running after `dt` seconds, in their old order, each
/// run down by `dt`.
pub open spec fn ticked_cooldowns(cooldowns: Seq<HitCooldown>, dt: Fixed) -> Seq<HitCooldown>
    decreases cooldowns.len(),
{
    if cooldowns.len() == 0 {
        Seq::empty()
    } else {
        let rest = ticked_cooldowns(cooldowns.drop_last(), dt);
        let c = cooldowns.last();
        let left = c.remaining.sub(dt);
        if left.0 > 0 {
            rest.push(HitCooldown { target: c.target, remaining: left })
        } else {
            rest
        }
    }
}

impl Default for MeleeHitTracker {
    fn default() -> (r: MeleeHitTracker)
        ensures
            r.cooldowns@ == Seq::<HitCooldown>::empty(),
    {
        MeleeHitTracker { cooldowns: Vec::new() }
    }
}

impl MeleeHitTracker {
    /// A tracker with no cooldown running.
    pub fn new() -> (r: MeleeHitTracker)
        ensures
            r.cooldowns@ == Seq::<HitCooldown>::empty(),
    {
        MeleeHitTracker { cooldowns: Vec::new() }
    }

    pub open spec fn spec_can_hit(&self, target: EntityId) -> bool {
        can_hit_in(self.cooldowns@, target)
    }

    /// Whether `target` can be hit now: no cooldown on it is running.
    #[verifier::when_used_as_spec(spec_can_hit)]
    pub fn can_hit(&self, target: EntityId) -> (r: bool)
        ensures
            r == self.spec_can_hit(target),
    {
        let n = self.cooldowns.len();
        let mut i: usize = 0;
        while i < n
            invariant
                i <= n,
                n == self.cooldowns.len(),
                can_hit_in(self.cooldowns@.take(i as int), target),
            decreases n - i,
        {
            let c = self.cooldowns[i];
            if c.target.0 == target.0 && c.remaining.0 > 0 {
                assert(self.cooldowns@[i as int].target == target);
                return false;
            }
            proof {
                let next = self.cooldowns@.take(i as int + 1);
                assert forall|j: int| 0 <= j < next.len() implies !(#[trigger] next[j].target
                    == target && next[j].remaining.0 > 0) by {
                    if j < i {
                        assert(self.cooldowns@.take(i as int)[j] == next[j]);
                    }
                }
            }
            i += 1;
        }
        assert(self.cooldowns@.take(n as int) == self.cooldowns@);
        true
    }

    /// Starts a cooldown of `cooldown` seconds on `target`.
    pub fn register_hit(&mut self, target: EntityId, cooldown: Fixed)
        ensures
            final(self).cooldowns@ == old(self).cooldowns@.push(
                HitCooldown { target, remaining: cooldown },
            ),
    {
        self.cooldowns.push(HitCooldown { target, remaining: cooldown });
    }

    /// Runs every cooldown down by `dt` and drops those that have run out.
    pub fn tick(&mut self, dt: Fixed)
        ensures
            final(self).cooldowns@ == ticked_cooldowns(old(self).cooldowns@, dt),
    {
        let n = self.cooldowns.len();
        let mut kept: Vec<HitCooldown> = Vec::new();
        let mut i: usize = 0;
        while i < n
            invariant
                i <= n,
                n == self.cooldowns.len(),
                self.cooldowns@ == old(self).cooldowns@,
                kept@ == ticked_cooldowns(self.cooldowns@.take(i as int), dt),
            decreases n - i,
        {
            proof {
                assert(self.cooldowns@.take(i as int + 1).drop_last() == self.cooldowns@.take(
                    i as int,
                ));
            }
            let c = self.cooldowns[i];
            let left = c.remaining.sub(dt);
            if left.0 > 0 {
                kept.push(HitCooldown { target: c.target, remaining: left });
            }
            i += 1;
        }
        assert(self.cooldowns@.take(n as int) == self.cooldowns@);
        self.cooldowns = kept;
    }
}

/// The cooldowns after the ticks `dts` have passed, one after the other.
pub open spec fn ticked_through(cooldowns: Seq<HitCooldown>, dts: Seq<Fixed>) -> Seq<HitCooldown>
    decreases dts.len(),
{
    if dts.len() == 0 {
        cooldowns
    } else {
        ticked_cooldowns(ticked_through(cooldowns, dts.drop_last()), dts.last())
    }
}

/// The seconds the ticks `dts` add up to, in raw units.
pub open spec fn elapsed(dts: Seq<Fixed>) -> int
    decreases dts.len(),
{
    if dts.len() == 0 {
        0
    } else {
        elapsed(dts.drop_last()) + dts.last().0
    }
}

/// Whether some entry of `cooldowns` blocks `target` for exactly
/// `remaining` more seconds.
pub open spec fn holds_cooldown(cooldowns: Seq<HitCooldown>, target: EntityId, remaining: int) -> bool {
    exists|i: int|
        0 <= i < cooldowns.len() && #[trigger] cooldowns[i].target == target
            && cooldowns[i].remaining.0 == remaining
}

/// Whether every entry of `cooldowns` on `target` has at most `bound`
/// seconds left.
pub open spec fn cooldowns_within(cooldowns: Seq<HitCooldown>, target: EntityId, bound: int) -> bool {
    forall|i: int|
        0 <= i < cooldowns.len() && #[trigger] cooldowns[i].target == target
            ==> cooldowns[i].remaining.0 <= bound
}

proof fn lemma_tick_keeps_running(
    cooldowns: Seq<HitCooldown>,
    target: EntityId,
    remaining: int,
    dt: Fixed,
)
    requires
        holds_cooldown(cooldowns, target, remaining),
        dt.0 >= 0,
        remaining - dt.0 > 0,
    ensures
        holds_cooldown(ticked_cooldowns(cooldowns, dt), target, remaining - dt.0),
    decreases cooldowns.len(),
{
    let i = choose|i: int|
        0 <= i < cooldowns.len() && #[trigger] cooldowns[i].target == target
            && cooldowns[i].remaining.0 == remaining;
    let rest = ticked_cooldowns(cooldowns.drop_last(), dt);
    let c = cooldowns.last();
    if i == cooldowns.len() - 1 {
        let out = ticked_cooldowns(cooldowns, dt);
        assert(out == rest.push(HitCooldown { target: c.target, remaining: c.remaining.sub(dt) }));
        assert(out[out.len() - 1].target == target);
    } else {
        assert(cooldowns.drop_last()[i] == cooldowns[i]);
        lemma_tick_keeps_running(cooldowns.drop_last(), target, remaining, dt);
        let k = choose|k: int|
            0 <= k < rest.len() && #[trigger] rest[k].target == target && rest[k].remaining.0
                == remaining - dt.0;
        let out = ticked_cooldowns(cooldowns, dt);
        assert(out[k] == rest[k]);
    }
}

proof fn lemma_tick_lowers_bound(cooldowns: Seq<HitCooldown>, target: EntityId, bound: int, dt: Fixed)
    requires
        cooldowns_within(cooldowns, target, bound),
        dt.0 >= 0,
    ensures
        cooldowns_within(ticked_cooldowns(cooldowns, dt), target, bound - dt.0),
    decreases cooldowns.len(),
{
    if cooldowns.len() > 0 {
        assert forall|i: int|
            0 <= i < cooldowns.drop_last().len() && #[trigger] cooldowns.drop_last()[i].target
                == target implies cooldowns.drop_last()[i].remaining.0 <= bound by {
            assert(cooldowns.drop_last()[i] == cooldowns[i]);
        }
        lemma_tick_lowers_bound(cooldowns.drop_last(), target, bound, dt);
        let rest = ticked_cooldowns(cooldowns.drop_last(), dt);
        let out = ticked_cooldowns(cooldowns, dt);
        let c = cooldowns.last();
        assert forall|i: int| 0 <= i < out.len() && #[trigger] out[i].target == target implies out[i].remaining.0
            <= bound - dt.0 by {
            if i < rest.len() {
                assert(out[i] == rest[i]);
            } else {
                assert(cooldowns[cooldowns.len() - 1].target == target);
            }
        }
    }
}

/// Melee cooldown, first half: after a hit on `target` with cooldown
/// `cooldown`, the target cannot be hit again while the ticks since the
/// hit add up to less than the cooldown.
pub proof fn lemma_melee_cooldown_blocks(
    cooldowns: Seq<HitCooldown>,
    target: EntityId,
    cooldown: Fixed,
    dts: Seq<Fixed>,
)
    requires
        forall|i: int| 0 <= i < dts.len() ==> (#[trigger] dts[i]).0 >= 0,
        elapsed(dts) < cooldown.0,
    ensures
        !can_hit_in(
            ticked_through(cooldowns.push(HitCooldown { target, remaining: cooldown }), dts),
            target,
        ),
{
    lemma_cooldown_runs(cooldowns, target, cooldown, dts);
}

proof fn lemma_cooldown_runs(
    cooldowns: Seq<HitCooldown>,
    target: EntityId,
    cooldown: Fixed,
    dts: Seq<Fixed>,
)
    requires
        forall|i: int| 0 <= i < dts.len() ==> (#[trigger] dts[i]).0 >= 0,
        elapsed(dts) < cooldown.0,
    ensures
        holds_cooldown(
            ticked_through(cooldowns.push(HitCooldown { target, remaining: cooldown }), dts),
            target,
            cooldown.0 - elapsed(dts),
        ),
    decreases dts.len(),
{
    let start = cooldowns.push(HitCooldown { target, remaining: cooldown });
    if dts.len() == 0 {
        assert(start[start.len() - 1].target == target);
    } else {
        assert forall|i: int| 0 <= i < dts.drop_last().len() implies (#[trigger] dts.drop_last()[i]).0
            >= 0 by {
            assert(dts.drop_last()[i] == dts[i]);
        }
        assert(dts[dts.len() - 1].0 >= 0);
        lemma_cooldown_runs(cooldowns, target, cooldown, dts.drop_last());
        lemma_tick_keeps_running(
            ticked_through(start, dts.drop_last()),
            target,
            cooldown.0 - elapsed(dts.drop_last()),
            dts.last(),
        );
    }
}

/// Melee cooldown, second half: if `target` could be hit before the hit,
/// it can be hit again once the ticks since the hit add up to the
/// cooldown or more.
pub proof fn lemma_melee_cooldown_ends(
    cooldowns: Seq<HitCooldown>,
    target: EntityId,
    cooldown: Fixed,
    dts: Seq<Fixed>,
)
    requires
        can_hit_in(cooldowns, target),
        cooldown.0 >= 0,
        forall|i: int| 0 <= i < dts.len() ==> (#[trigger] dts[i]).0 >= 0,
        elapsed(dts) >= cooldown.0,
    ensures
        can_hit_in(
            ticked_through(cooldowns.push(HitCooldown { target, remaining: cooldown }), dts),
            target,
        ),
{
    let start = cooldowns.push(HitCooldown { target, remaining: cooldown });
    assert forall|i: int| 0 <= i < start.len() && #[trigger] start[i].target == target implies start[i].remaining.0
        <= cooldown.0 by {
        if i < cooldowns.len() {
            assert(start[i] == cooldowns[i]);
        }
    }
    lemma_bound_runs_down(start, target, cooldown.0 as int, dts);
}

proof fn lemma_bound_runs_down(cooldowns: Seq<HitCooldown>, target: EntityId, bound: int, dts: Seq<Fixed>)
    requires
        cooldowns_within(cooldowns, target, bound),
        forall|i: int| 0 <= i < dts.len() ==> (#[trigger] dts[i]).0 >= 0,
    ensures
        cooldowns_within(ticked_through(cooldowns, dts), target, bound - elapsed(dts)),
    decreases dts.len(),
{
    if dts.len() > 0 {
        assert forall|i: int| 0 <= i < dts.drop_last().len() implies (#[trigger] dts.drop_last()[i]).0
            >= 0 by {
            assert(dts.drop_last()[i] == dts[i]);
        }
        assert(dts[dts.len() - 1].0 >= 0);
        lemma_bound_runs_down(cooldowns, target, bound, dts.drop_last());
        lemma_tick_lowers_bound(
            ticked_through(cooldowns, dts.drop_last()),
            target,
            bound - elapsed(dts.drop_last()),
            dts.last(),
        );
    }
}

} // verus!
