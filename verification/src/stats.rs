//! Round statistics: totals the HUD and the end-of-round screen read.

use vstd::prelude::*;

verus! {

use crate::collision::DamageEvent;

/// Damage dealt over the round, across all entities.
#[derive(Clone, Copy, PartialEq, Eq, Structural, Debug)]
pub struct TotalDamageDone(pub u32);

/// Enemies killed over the round.
#[derive(Clone, Copy, PartialEq, Eq, Structural, Debug)]
pub struct TotalEnemiesKilled(pub u32);

/// Bullets fired over the round.
#[derive(Clone, Copy, PartialEq, Eq, Structural, Debug)]
pub struct TotalBulletsFired(pub u32);

/// Enemies on the field right now.
#[derive(Clone, Copy, PartialEq, Eq, Structural, Debug)]
pub struct EnemiesStillAlive(pub u32);

/// The damage carried by the events from `i` on.
pub open spec fn damage_from(events: Seq<DamageEvent>, i: int) -> int
    decreases events.len() - i,
{
    if i < 0 || i >= events.len() {
        0
    } else {
        events[i].amount + damage_from(events, i + 1)
    }
}

/// How many of the flags from `i` on are set.
pub open spec fn count_true_from(flags: Seq<bool>, i: int) -> int
    decreases flags.len() - i,
{
    if i < 0 || i >= flags.len() {
        0
    } else {
        (if flags[i] { 1int } else { 0int }) + count_true_from(flags, i + 1)
    }
}

/// Fold this tick's damage events into the running total.
pub fn collect_damage_done(total: &mut TotalDamageDone, events: &Vec<DamageEvent>)
    requires
        forall|i: int| 0 <= i < events@.len() ==> 0 <= #[trigger] events@[i].amount,
        old(total).0 + damage_from(events@, 0) <= u32::MAX,
    ensures
        final(total).0 == old(total).0 + damage_from(events@, 0),
{
    let mut i: usize = 0;
    while i < events.len()
        invariant
            0 <= i <= events@.len(),
            forall|k: int| 0 <= k < events@.len() ==> 0 <= #[trigger] events@[k].amount,
            total.0 + damage_from(events@, i as int) == old(total).0 + damage_from(events@, 0),
            total.0 + damage_from(events@, i as int) <= u32::MAX,
        decreases events@.len() - i,
    {
        proof {
            lemma_damage_from_nonneg(events@, i + 1);
        }
        total.0 = total.0 + (events[i].amount as u32);
        i = i + 1;
    }
}

proof fn lemma_damage_from_nonneg(events: Seq<DamageEvent>, i: int)
    requires
        forall|k: int| 0 <= k < events.len() ==> 0 <= #[trigger] events[k].amount,
    ensures
        damage_from(events, i) >= 0,
    decreases events.len() - i,
{
    if 0 <= i < events.len() {
        lemma_damage_from_nonneg(events, i + 1);
    }
}

/// Fold this tick's deaths into the kill count: one flag per death
/// event, set when the dead entity was an enemy.
pub fn count_deaths(total: &mut TotalEnemiesKilled, death_was_enemy: &Vec<bool>)
    requires
        old(total).0 + count_true_from(death_was_enemy@, 0) <= u32::MAX,
    ensures
        final(total).0 == old(total).0 + count_true_from(death_was_enemy@, 0),
{
    let mut i: usize = 0;
    while i < death_was_enemy.len()
        invariant
            0 <= i <= death_was_enemy@.len(),
            total.0 + count_true_from(death_was_enemy@, i as int)
                == old(total).0 + count_true_from(death_was_enemy@, 0),
            total.0 + count_true_from(death_was_enemy@, i as int) <= u32::MAX,
        decreases death_was_enemy@.len() - i,
    {
        proof {
            lemma_count_true_bounds(death_was_enemy@, i + 1);
        }
        if death_was_enemy[i] {
            total.0 = total.0 + 1;
        }
        i = i + 1;
    }
}

proof fn lemma_count_true_bounds(flags: Seq<bool>, i: int)
    ensures
        count_true_from(flags, i) >= 0,
    decreases flags.len() - i,
{
    if 0 <= i < flags.len() {
        lemma_count_true_bounds(flags, i + 1);
    }
}

/// A new round starts from clean counters.
pub fn reset_stats(
    total_damage_done: &mut TotalDamageDone,
    enemies_killed: &mut TotalEnemiesKilled,
    enemies_alive: &mut EnemiesStillAlive,
    bullets_fired: &mut TotalBulletsFired,
)
    ensures
        final(total_damage_done).0 == 0,
        final(enemies_killed).0 == 0,
        final(enemies_alive).0 == 0,
        final(bullets_fired).0 == 0,
{
    total_damage_done.0 = 0;
    enemies_killed.0 = 0;
    enemies_alive.0 = 0;
    bullets_fired.0 = 0;
}

} // verus!
