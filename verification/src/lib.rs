//! Simulation core of a 2D shoot-em-up: targeting, weapon cooldowns,
//! projectile collision, the health/shield damage pipeline, the wave
//! timeline and the power-up inventory.
//!
//! Time is measured in whole milliseconds and positions in whole world
//! units, so every rule of the game is stated and proved over integers.
//! The engine around the game (rendering, input, the entity store) hands
//! plain values in and carries the returned decisions out.

use vstd::prelude::*;

pub mod actions;
pub mod collision;
pub mod enemy;
pub mod geometry;
pub mod health;
pub mod leveling;
pub mod overshield;
pub mod player;
pub mod power_ups;
pub mod stats;
pub mod rng;
pub mod targeting;
pub mod waves;
pub mod weapon;

verus! {

/// The phase the game is in; systems only run while `Playing`.
#[derive(Clone, Copy, PartialEq, Eq, Structural, Debug)]
pub enum GameState {
    Loading,
    Playing,
    Menu,
    Paused,
    Chooser,
    EndGame,
}

} // verus!
