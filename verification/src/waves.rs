//! The wave timeline — a time-ordered schedule of spawn triggers with a
//! cursor that never rescans — and the spawner entities it creates, each
//! with its own interval, batch size and remaining budget.

use vstd::prelude::*;

verus! {

use crate::enemy::EnemyType;
use crate::rng::sample_inclusive;

/// A time-boxed enemy generator: every `interval_ms` it places a batch
/// of enemies around the player, somewhere between `spawn_range_lo` and
/// `spawn_range_hi` world units away, until its budget runs out.
#[derive(Clone, Copy, PartialEq, Eq, Structural, Debug)]
pub struct Spawner {
    pub spawn_range_lo: u32,
    pub spawn_range_hi: u32,
    pub interval_ms: u32,
    pub current_interval_ms: u32,
    pub enemies_spawned_per_interval: u32,
    pub num_enemies: i32,
    pub enemy_type: EnemyType,
}

/// One entry of the wave timeline: at `run_at_ms` of game time, bring
/// this spawner to life.
#[derive(Clone, Copy, PartialEq, Eq, Structural, Debug)]
pub struct WaveEntry {
    pub run_at_ms: u64,
    pub spawner: Spawner,
}

/// Elapsed game time and the cursor into the timeline. The cursor only
/// moves forward, so each entry fires exactly once, in order.
pub struct WaveTimer {
    pub current_time_ms: u64,
    pub search_index: usize,
}

impl WaveTimer {
    /// How far the scan has progressed; entries before this never fire
    /// again.
    pub open spec fn cursor(&self) -> int {
        self.search_index as int
    }

    /// A fresh timer: zero elapsed time, nothing consumed.
    pub fn new() -> (r: Self)
        ensures
            r.current_time_ms == 0,
            r.cursor() == 0,
    {
        WaveTimer { current_time_ms: 0, search_index: 0 }
    }

    /// Resetting the game resets both the clock and the cursor.
    pub fn reset(&mut self)
        ensures
            final(self).current_time_ms == 0,
            final(self).cursor() == 0,
    {
        self.current_time_ms = 0;
        self.search_index = 0;
    }

    /// Advance the clock by `dt_ms` and fire every not-yet-consumed
    /// entry whose trigger time has come, in order.
    ///
    /// The fired entries are exactly the maximal run of entries at the
    /// cursor whose `run_at_ms` lies at or before the new clock; the
    /// cursor moves past them and never back, so an entry consumed once
    /// is never fired again, even if later entries hold earlier times.
    pub fn advance(&mut self, timeline: &Vec<WaveEntry>, dt_ms: u64) -> (fired: Vec<Spawner>)
        requires
            old(self).current_time_ms + dt_ms <= u64::MAX,
            old(self).cursor() <= timeline@.len(),
        ensures
            final(self).current_time_ms == old(self).current_time_ms + dt_ms,
            old(self).cursor() <= final(self).cursor() <= timeline@.len(),
            fired@.len() == final(self).cursor() - old(self).cursor(),
            forall|i: int| 0 <= i < fired@.len()
                ==> #[trigger] fired@[i] == timeline@[old(self).cursor() + i].spawner,
            forall|i: int| old(self).cursor() <= i < final(self).cursor()
                ==> #[trigger] timeline@[i].run_at_ms <= old(self).current_time_ms + dt_ms,
            final(self).cursor() < timeline@.len()
                ==> timeline@[final(self).cursor()].run_at_ms
                    > old(self).current_time_ms + dt_ms,
    {
        self.current_time_ms = self.current_time_ms + dt_ms;
        let new_time: u64 = self.current_time_ms;
        let mut fired: Vec<Spawner> = Vec::new();
        while self.search_index < timeline.len()
            && timeline[self.search_index].run_at_ms <= new_time
            invariant
                old(self).cursor() <= self.cursor() <= timeline@.len(),
                self.current_time_ms == new_time,
                fired@.len() == self.cursor() - old(self).cursor(),
                forall|i: int| 0 <= i < fired@.len()
                    ==> #[trigger] fired@[i] == timeline@[old(self).cursor() + i].spawner,
                forall|i: int| old(self).cursor() <= i < self.cursor()
                    ==> #[trigger] timeline@[i].run_at_ms <= new_time,
            decreases timeline@.len() - self.cursor(),
        {
            fired.push(timeline[self.search_index].spawner);
            self.search_index = self.search_index + 1;
        }
        fired
    }
}

/// The timeline the game ships with: from the first moment, a slow
/// trickle of planes from afar and a steady swarm of mosquitoes from
/// close by.
pub fn default_waves() -> (r: Vec<WaveEntry>)
    ensures
        r@.len() == 2,
        r@[0] == (WaveEntry {
            run_at_ms: 0,
            spawner: Spawner {
                spawn_range_lo: 1000,
                spawn_range_hi: 2000,
                interval_ms: 2000,
                current_interval_ms: 0,
                enemies_spawned_per_interval: 2,
                num_enemies: 1000,
                enemy_type: EnemyType::RedPlane,
            },
        }),
        r@[1] == (WaveEntry {
            run_at_ms: 0,
            spawner: Spawner {
                spawn_range_lo: 500,
                spawn_range_hi: 500,
                interval_ms: 1000,
                current_interval_ms: 1000,
                enemies_spawned_per_interval: 10,
                num_enemies: 1000,
                enemy_type: EnemyType::Mosquito,
            },
        }),
{
    let mut r: Vec<WaveEntry> = Vec::new();
    r.push(WaveEntry {
        run_at_ms: 0,
        spawner: Spawner {
            spawn_range_lo: 1000,
            spawn_range_hi: 2000,
            interval_ms: 2000,
            current_interval_ms: 0,
            enemies_spawned_per_interval: 2,
            num_enemies: 1000,
            enemy_type: EnemyType::RedPlane,
        },
    });
    r.push(WaveEntry {
        run_at_ms: 0,
        spawner: Spawner {
            spawn_range_lo: 500,
            spawn_range_hi: 500,
            interval_ms: 1000,
            current_interval_ms: 1000,
            enemies_spawned_per_interval: 10,
            num_enemies: 1000,
            enemy_type: EnemyType::Mosquito,
        },
    });
    r
}

impl Spawner {
    /// A spawner's placement band is never empty.
    pub open spec fn wf(&self) -> bool {
        self.spawn_range_lo <= self.spawn_range_hi
    }

    /// One tick of a live spawner. The interval countdown runs on every
    /// tick; when it runs out it re-arms, and — if a player is present
    /// to spawn around — a batch is placed: as many enemies as the
    /// spawner places per interval, capped by what remains of its
    /// budget. The spawner asks to be removed the moment the budget
    /// cannot cover a full batch member, exactly as many enemies having
    /// been spawned as the budget allowed.
    pub fn step(&mut self, dt_ms: u32, player_present: bool) -> (r: SpawnBatch)
        ensures
            final(self).spawn_range_lo == old(self).spawn_range_lo,
            final(self).spawn_range_hi == old(self).spawn_range_hi,
            final(self).interval_ms == old(self).interval_ms,
            final(self).enemies_spawned_per_interval == old(self).enemies_spawned_per_interval,
            final(self).enemy_type == old(self).enemy_type,
            dt_ms <= old(self).current_interval_ms ==> {
                &&& final(self).current_interval_ms == old(self).current_interval_ms - dt_ms
                &&& final(self).num_enemies == old(self).num_enemies
                &&& r.count == 0
                &&& !r.despawn_spawner
            },
            dt_ms > old(self).current_interval_ms ==> {
                &&& final(self).current_interval_ms == old(self).interval_ms
                &&& if player_present {
                    let budget = if old(self).num_enemies > 0 {
                        old(self).num_enemies as int
                    } else {
                        0
                    };
                    let n = old(self).enemies_spawned_per_interval as int;
                    &&& r.count == if n <= budget { n } else { budget }
                    &&& final(self).num_enemies == old(self).num_enemies - r.count
                    &&& r.despawn_spawner <==> n > budget
                } else {
                    &&& final(self).num_enemies == old(self).num_enemies
                    &&& r.count == 0
                    &&& !r.despawn_spawner
                }
            },
    {
        if dt_ms <= self.current_interval_ms {
            self.current_interval_ms = self.current_interval_ms - dt_ms;
            return SpawnBatch { count: 0, despawn_spawner: false };
        }
        self.current_interval_ms = self.interval_ms;
        if !player_present {
            return SpawnBatch { count: 0, despawn_spawner: false };
        }
        let budget: u32 = if self.num_enemies > 0 {
            self.num_enemies as u32
        } else {
            0
        };
        let per: u32 = self.enemies_spawned_per_interval;
        let count: u32 = if per <= budget {
            per
        } else {
            budget
        };
        self.num_enemies = self.num_enemies - (count as i32);
        SpawnBatch { count, despawn_spawner: per > budget }
    }

    /// Roll a placement distance, within the spawner's band, for each
    /// enemy of a batch.
    pub fn roll_spawn_distances(&self, count: u32) -> (r: Vec<u32>)
        requires
            self.wf(),
        ensures
            r@.len() == count,
            forall|i: int| 0 <= i < r@.len()
                ==> self.spawn_range_lo <= #[trigger] r@[i] <= self.spawn_range_hi,
    {
        let mut r: Vec<u32> = Vec::new();
        let mut i: u32 = 0;
        while i < count
            invariant
                i <= count,
                self.spawn_range_lo <= self.spawn_range_hi,
                r@.len() == i,
                forall|k: int| 0 <= k < r@.len()
                    ==> self.spawn_range_lo <= #[trigger] r@[k] <= self.spawn_range_hi,
            decreases count - i,
        {
            r.push(sample_inclusive(self.spawn_range_lo, self.spawn_range_hi));
            i = i + 1;
        }
        r
    }
}

/// What one spawner tick asks the engine to do.
pub struct SpawnBatch {
    /// How many enemies to place this tick.
    pub count: u32,
    /// The spawner's budget is exhausted: remove it.
    pub despawn_spawner: bool,
}

} // verus!
