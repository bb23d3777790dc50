//! Enemy archetypes: the fixed stats each enemy kind spawns with.

use vstd::prelude::*;

verus! {

use crate::power_ups::{PowerUpType, Powerup};

/// The kinds of enemy a spawner can produce.
#[derive(Clone, Copy, PartialEq, Eq, Structural, Debug)]
pub enum EnemyType {
    RedPlane,
    Mosquito,
    SailBoat,
}

/// The plain-valued loadout an enemy of some kind spawns with.
pub struct EnemyArchetype {
    /// Starting (and maximum) health.
    pub health: i32,
    /// Experience awarded when it dies.
    pub xp_worth: i32,
    /// Constant acceleration applied to its velocity, per second.
    pub acceleration: u32,
    /// Speed cap, world units per second.
    pub vmax: u32,
    /// The weapon it carries from birth, if any.
    pub initial_powerup: Option<Powerup>,
}

/// The stats each enemy kind spawns with; a kind with no archetype is
/// never instantiated.
pub fn enemy_archetype(kind: EnemyType) -> (r: Option<EnemyArchetype>)
    ensures
        kind == EnemyType::RedPlane ==> (r matches Some(a)
            && a.health == 20
            && a.xp_worth == 10
            && a.acceleration == 1000
            && a.vmax == 100
            && a.initial_powerup == Some(Powerup { power: PowerUpType::PeaShooter, level: 0 })),
        kind == EnemyType::Mosquito ==> (r matches Some(a)
            && a.health == 2
            && a.xp_worth == 1
            && a.acceleration == 100
            && a.vmax == 500
            && a.initial_powerup.is_none()),
        kind == EnemyType::SailBoat ==> r.is_none(),
{
    match kind {
        EnemyType::RedPlane => Some(EnemyArchetype {
            health: 20,
            xp_worth: 10,
            acceleration: 1000,
            vmax: 100,
            initial_powerup: Some(Powerup { power: PowerUpType::PeaShooter, level: 0 }),
        }),
        EnemyType::Mosquito => Some(EnemyArchetype {
            health: 2,
            xp_worth: 1,
            acceleration: 100,
            vmax: 500,
            initial_powerup: None,
        }),
        EnemyType::SailBoat => None,
    }
}

} // verus!
