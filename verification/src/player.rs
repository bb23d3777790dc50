//! The player ship: the loadout a fresh round starts from.

use vstd::prelude::*;

verus! {

use crate::health::{Health, MaxHealth};
use crate::leveling::{Level, Xp};

/// Everything a freshly spawned player ship starts with, as plain
/// values; the engine dresses them in sprites and input bindings.
pub struct PlayerStart {
    pub health: Health,
    pub max_health: MaxHealth,
    /// Initial planar velocity, world units per second.
    pub velocity: (i32, i32),
    /// Cap on the player's speed, world units per second.
    pub vmax: u32,
    pub xp: Xp,
    pub level: Level,
}

/// The starting loadout: full health, drifting slowly upward, level
/// one, nothing earned yet, every power-up slot empty.
pub fn player_start() -> (r: PlayerStart)
    ensures
        r.health == Health(100),
        r.max_health == MaxHealth(100),
        r.velocity == (0i32, 100i32),
        r.vmax == 200,
        r.xp == Xp(0),
        r.level == Level(1),
{
    PlayerStart {
        health: Health(100),
        max_health: MaxHealth(100),
        velocity: (0, 100),
        vmax: 200,
        xp: Xp(0),
        level: Level(1),
    }
}

} // verus!
