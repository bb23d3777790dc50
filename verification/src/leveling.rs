//! Experience and levels: dying enemies leave experience pellets, the
//! player scoops them up by overlap, and accumulated experience buys
//! level-ups.

use vstd::prelude::*;

verus! {

use crate::geometry::{Coord2D, dist_sq};

/// Experience points held.
#[derive(Clone, Copy, PartialEq, Eq, Structural, Debug)]
pub struct Xp(pub i32);

/// The player's level.
#[derive(Clone, Copy, PartialEq, Eq, Structural, Debug)]
pub struct Level(pub i32);

/// How much experience is awarded when this entity dies.
#[derive(Clone, Copy, PartialEq, Eq, Structural, Debug)]
pub struct XpWorth(pub i32);

/// Squared distance inside which a pellet is scooped up.
pub const XP_COLLECT_RADIUS_SQ: i128 = 1000;

/// Highest level the experience curve is defined for; the curve value
/// still fits an `i32` here.
pub const LEVEL_CAP: i32 = 5000;

/// The experience curve: what the next level-up costs at `level`,
/// rising with the square of the level (about 71.429 per squared
/// level, plus a flat 190).
pub open spec fn spec_xp_required(level: int) -> int {
    (71_429 * level * level) / 1000 + 190
}

/// What the next level-up costs.
pub fn xp_required_for_level(level: &Level) -> (r: Xp)
    requires
        0 <= level.0 <= LEVEL_CAP,
    ensures
        r.0 == spec_xp_required(level.0 as int),
{
    let l: i64 = level.0 as i64;
    proof {
        assert(0 <= 71_429 * l * l <= 71_429 * 5000 * 5000) by (nonlinear_arith)
            requires 0 <= l <= 5000,
        ;
    }
    let scaled: i64 = 71_429i64 * l * l / 1000 + 190;
    Xp(scaled as i32)
}

/// Spend experience on level-ups: when the player holds at least the
/// cost of the next level, the level rises by one and the cost is
/// deducted; the caller then opens the power-up chooser. Otherwise
/// nothing changes.
pub fn run_level_ups(level: &mut Level, xp: &mut Xp) -> (leveled: bool)
    requires
        0 <= old(level).0 < LEVEL_CAP,
    ensures
        leveled <==> old(xp).0 >= spec_xp_required(old(level).0 as int),
        leveled ==> final(level).0 == old(level).0 + 1
            && final(xp).0 == old(xp).0 - spec_xp_required(old(level).0 as int),
        !leveled ==> *final(level) == *old(level) && *final(xp) == *old(xp),
{
    let needed: Xp = xp_required_for_level(level);
    proof {
        assert(spec_xp_required(level.0 as int) >= 190) by (nonlinear_arith)
            requires 0 <= level.0,
        ;
    }
    if xp.0 >= needed.0 {
        level.0 = level.0 + 1;
        xp.0 = xp.0 - needed.0;
        true
    } else {
        false
    }
}

/// Everything needed to place one experience pellet.
pub struct PelletSpawn {
    /// Where the pellet appears: the dead enemy's position.
    pub pos: Coord2D,
    /// The experience it carries.
    pub worth: XpWorth,
    /// Initial drift, world units per second.
    pub velocity: (i32, i32),
    /// Homing acceleration toward the player, per second.
    pub acceleration: u32,
}

/// Decide the pellet for one death event: a dead enemy whose body was
/// found leaves exactly one pellet of its configured worth at its
/// position, drifting upward and homing in on the player. Any other
/// death leaves none.
pub fn pellet_for_death(enemy: Option<(Coord2D, XpWorth)>) -> (r: Option<PelletSpawn>)
    ensures
        match enemy {
            None => r.is_none(),
            Some((pos, worth)) => r matches Some(p)
                && p.pos == pos
                && p.worth == worth
                && p.velocity == (0i32, 100i32)
                && p.acceleration == 1,
        },
{
    match enemy {
        Some((pos, worth)) => Some(PelletSpawn {
            pos,
            worth,
            velocity: (0, 100),
            acceleration: 1,
        }),
        None => None,
    }
}

/// Let the player scoop up one experience pellet: when the two
/// overlap, the pellet's worth moves whole onto the player and the
/// drained pellet is removed; out of reach, nothing changes.
pub fn collect_pellet(
    player_pos: &Coord2D,
    pellet_pos: &Coord2D,
    player_xp: &mut Xp,
    pellet: &mut XpWorth,
) -> (collected: bool)
    requires
        0 <= old(pellet).0,
        old(player_xp).0 + old(pellet).0 <= i32::MAX,
    ensures
        collected <==> dist_sq(*player_pos, *pellet_pos) < XP_COLLECT_RADIUS_SQ,
        collected ==> final(player_xp).0 == old(player_xp).0 + old(pellet).0
            && final(pellet).0 == 0,
        !collected ==> *final(player_xp) == *old(player_xp) && *final(pellet) == *old(pellet),
{
    let d: i128 = player_pos.dist_sq_to(pellet_pos);
    if d < XP_COLLECT_RADIUS_SQ {
        player_xp.0 = player_xp.0 + pellet.0;
        pellet.0 = 0;
        true
    } else {
        false
    }
}

} // verus!
