//! The damage pipeline: shield absorption, health subtraction, the death
//! transition, and despawn timers.

use vstd::prelude::*;

verus! {

use crate::overshield::OvershieldState;
use crate::overshield::RECHARGE_DELAY_MS;

/// Current health of a damageable entity.
#[derive(Clone, Copy, PartialEq, Eq, Structural, Debug)]
pub struct Health(pub i32);

/// The health the entity started with.
#[derive(Clone, Copy, PartialEq, Eq, Structural, Debug)]
pub struct MaxHealth(pub i32);

/// Announcement that an entity died this tick.
#[derive(Clone, Copy, PartialEq, Eq, Structural, Debug)]
pub struct DeathEvent(pub u64);

/// Counts down in milliseconds; the entity is removed when it runs out.
#[derive(Clone, Copy, PartialEq, Eq, Structural, Debug)]
pub struct DespawnTimer(pub u32);

impl DespawnTimer {
    /// Advance the timer by `dt_ms`; true means the entity despawns now.
    pub fn tick(&mut self, dt_ms: u32) -> (despawn: bool)
        ensures
            final(self).0 == if dt_ms >= old(self).0 { 0 } else { old(self).0 - dt_ms },
            despawn <==> dt_ms >= old(self).0,
    {
        if dt_ms >= self.0 {
            self.0 = 0;
            true
        } else {
            self.0 = self.0 - dt_ms;
            false
        }
    }
}

/// Apply one damage event to an entity's health, absorbed by its shield
/// first when it has one.
///
/// With a shield holding charge `c`, taking damage always restarts the
/// recharge delay; damage up to `c` is absorbed whole and health is
/// untouched, while damage beyond `c` empties the shield and only the
/// excess reaches health. Without a shield the full amount reaches
/// health.
pub fn apply_damage(health: &mut Health, shield: &mut Option<OvershieldState>, amount: i32)
    requires
        0 <= amount,
        (*old(shield)) matches Some(s) ==> 0 <= s.current_overshield,
        match *old(shield) {
            None => old(health).0 - amount >= i32::MIN,
            Some(s) => amount > s.current_overshield
                ==> old(health).0 - (amount - s.current_overshield) >= i32::MIN,
        },
    ensures
        match *old(shield) {
            None => {
                &&& final(health).0 == old(health).0 - amount
                &&& final(shield).is_none()
            },
            Some(s) => {
                &&& *final(shield) matches Some(s2)
                    && s2.max_overshield == s.max_overshield
                    && s2.ms_until_recharge == RECHARGE_DELAY_MS
                    && s2.current_overshield == if amount <= s.current_overshield {
                        s.current_overshield - amount
                    } else {
                        0
                    }
                &&& final(health).0 == if amount <= s.current_overshield {
                    old(health).0 as int
                } else {
                    old(health).0 - (amount - s.current_overshield)
                }
            },
        },
{
    let mut damage: i32 = amount;
    match shield {
        Some(s) => {
            s.ms_until_recharge = RECHARGE_DELAY_MS;
            if damage <= s.current_overshield {
                s.current_overshield = s.current_overshield - damage;
                damage = 0;
            } else {
                damage = damage - s.current_overshield;
                s.current_overshield = 0;
            }
        },
        None => {},
    }
    health.0 = health.0 - damage;
}

/// The per-tick death check for one entity: an entity whose health has
/// dropped to zero or below, and which is not yet marked dead, dies now.
pub struct DeathCheck {
    /// Emit a death event for this entity — true exactly on the
    /// transition from alive to dead.
    pub emit_death: bool,
    /// Whether the entity is marked dead after the check.
    pub now_dead: bool,
    /// The despawn timer to attach when the entity just died.
    pub attach_despawn: Option<DespawnTimer>,
}

/// Milliseconds a corpse lingers before it is removed.
pub const CORPSE_LINGER_MS: u32 = 10_000;

/// Decide the death transition for one entity. A death event is emitted
/// exactly when a live entity's health is zero or below, however many
/// damage events brought it there, so each entity dies at most once.
pub fn check_dead(health: &Health, already_dead: bool) -> (r: DeathCheck)
    ensures
        r.emit_death <==> (!already_dead && health.0 <= 0),
        r.now_dead <==> (already_dead || health.0 <= 0),
        r.attach_despawn == if !already_dead && health.0 <= 0 {
            Some(DespawnTimer(CORPSE_LINGER_MS))
        } else {
            None::<DespawnTimer>
        },
        life_step(
            LifeState { health: health.0 as int, dead: already_dead },
            LifeOp::Check,
        ) == (LifeState { health: health.0 as int, dead: r.now_dead }, r.emit_death),
{
    if !already_dead && health.0 <= 0 {
        DeathCheck {
            emit_death: true,
            now_dead: true,
            attach_despawn: Some(DespawnTimer(CORPSE_LINGER_MS)),
        }
    } else {
        DeathCheck {
            emit_death: false,
            now_dead: already_dead,
            attach_despawn: None,
        }
    }
}

/// One entity's standing in the death bookkeeping, at the level the
/// pipeline laws speak of.
pub struct LifeState {
    pub health: int,
    pub dead: bool,
}

/// One thing the pipeline does to an entity during a tick.
pub enum LifeOp {
    /// A damage event lands for this many points (shield already
    /// deducted). Dead entities no longer hold health, so it only
    /// applies while alive.
    Damage(int),
    /// The death-transition pass looks at the entity.
    Check,
}

/// How one pipeline operation moves an entity's state, and whether it
/// emits a death event — the specification mirror of `apply_damage`
/// (after shielding) and `check_dead`.
pub open spec fn life_step(s: LifeState, op: LifeOp) -> (LifeState, bool) {
    match op {
        LifeOp::Damage(amount) => {
            if s.dead {
                (s, false)
            } else {
                (LifeState { health: s.health - amount, dead: s.dead }, false)
            }
        },
        LifeOp::Check => {
            if !s.dead && s.health <= 0 {
                (LifeState { health: s.health, dead: true }, true)
            } else {
                (s, false)
            }
        },
    }
}

/// The state after a run of pipeline operations.
pub open spec fn life_run(s: LifeState, ops: Seq<LifeOp>) -> LifeState
    decreases ops.len(),
{
    if ops.len() == 0 {
        s
    } else {
        life_run(life_step(s, ops[0]).0, ops.skip(1))
    }
}

/// How many death events a run of pipeline operations emits.
pub open spec fn death_events(s: LifeState, ops: Seq<LifeOp>) -> int
    decreases ops.len(),
{
    if ops.len() == 0 {
        0
    } else {
        (if life_step(s, ops[0]).1 { 1int } else { 0int }) + death_events(life_step(s, ops[0]).0, ops.skip(1))
    }
}

/// Exactly one death event is emitted per transition from alive to dead:
/// over any sequence of damage events and death checks, an entity that
/// starts alive and ends dead accounts for one event, and every other
/// entity for none — no matter how many damage events drop its health
/// further while it is already at or below zero.
pub proof fn lemma_one_death_event(s: LifeState, ops: Seq<LifeOp>)
    ensures
        death_events(s, ops) == if !s.dead && life_run(s, ops).dead { 1int } else { 0int },
    decreases ops.len(),
{
    if ops.len() == 0 {
    } else {
        let (s2, emitted) = life_step(s, ops[0]);
        lemma_one_death_event(s2, ops.skip(1));
        if s2.dead {
            lemma_death_is_final(s2, ops.skip(1));
        }
        if s.dead {
            assert(s2 == s && !emitted);
        }
    }
}

/// Death is never undone: once marked dead, an entity stays dead through
/// every further operation.
pub proof fn lemma_death_is_final(s: LifeState, ops: Seq<LifeOp>)
    requires
        s.dead,
    ensures
        life_run(s, ops).dead,
    decreases ops.len(),
{
    if ops.len() == 0 {
    } else {
        lemma_death_is_final(life_step(s, ops[0]).0, ops.skip(1));
    }
}

} // verus!
