//! The overshield: a regenerating damage buffer layered in front of
//! health. Taking damage restarts a recharge delay; once the delay has
//! run out undisturbed, the shield regains one point of charge at a
//! fixed cadence until it is full again.

use vstd::prelude::*;

verus! {

/// Milliseconds of calm required after taking damage before the shield
/// starts recharging.
pub const RECHARGE_DELAY_MS: u32 = 2_000;

/// Milliseconds between consecutive points of regained charge.
pub const RECHARGE_STEP_MS: u32 = 100;

/// Shield charge granted per level of the power-up.
pub const CHARGE_PER_LEVEL: i32 = 100;

/// The overshield power-up at its current level.
#[derive(Clone, Copy, PartialEq, Eq, Structural, Debug)]
pub struct Overshield(pub u8);

impl Overshield {
    pub fn new(level: u8) -> (r: Self)
        ensures
            r.0 == level,
    {
        Self(level)
    }
}

/// The live shield attached to an entity: capacity, current charge, and
/// the time left before recharging may resume.
#[derive(Clone, Copy, PartialEq, Eq, Structural, Debug)]
pub struct OvershieldState {
    pub max_overshield: i32,
    pub current_overshield: i32,
    pub ms_until_recharge: u32,
}

impl OvershieldState {
    /// A shield's charge never goes negative and never exceeds its
    /// capacity.
    pub open spec fn wf(&self) -> bool {
        0 <= self.current_overshield <= self.max_overshield
    }

    /// A fresh, fully charged shield for a power-up at `level`.
    pub fn from_level(level: u8) -> (r: Self)
        ensures
            r.max_overshield == level as int * CHARGE_PER_LEVEL,
            r.current_overshield == r.max_overshield,
            r.ms_until_recharge == 0,
            r.wf(),
    {
        let max: i32 = (level as i32) * CHARGE_PER_LEVEL;
        OvershieldState {
            max_overshield: max,
            current_overshield: max,
            ms_until_recharge: 0,
        }
    }

    /// Advance the shield by `dt_ms` of calm (no damage this tick). A
    /// full shield rests. A depleted shield first waits out its recharge
    /// delay; the step on which the delay runs out regains exactly one
    /// point of charge and re-arms the cadence timer.
    pub fn recharge_step(&mut self, dt_ms: u32)
        requires
            old(self).wf(),
        ensures
            final(self).wf(),
            final(self).max_overshield == old(self).max_overshield,
            old(self).current_overshield == old(self).max_overshield
                ==> *final(self) == *old(self),
            old(self).current_overshield < old(self).max_overshield
                && dt_ms < old(self).ms_until_recharge
                ==> final(self).current_overshield == old(self).current_overshield
                    && final(self).ms_until_recharge == old(self).ms_until_recharge - dt_ms,
            old(self).current_overshield < old(self).max_overshield
                && dt_ms >= old(self).ms_until_recharge
                ==> final(self).current_overshield == old(self).current_overshield + 1
                    && final(self).ms_until_recharge == RECHARGE_STEP_MS,
            *final(self) == spec_recharge_step(*old(self), dt_ms as nat),
    {
        if self.max_overshield > self.current_overshield {
            if dt_ms < self.ms_until_recharge {
                self.ms_until_recharge = self.ms_until_recharge - dt_ms;
            } else {
                self.current_overshield = self.current_overshield + 1;
                self.ms_until_recharge = RECHARGE_STEP_MS;
            }
        }
    }
}

/// Keep an entity's shield state in step with its power-up level. A
/// first sighting of the power-up attaches a fresh full shield; a level
/// change re-derives capacity and refills the shield; an unchanged level
/// leaves the state alone.
pub fn sync_overshield_state(level: u8, state: &mut Option<OvershieldState>)
    ensures
        match *old(state) {
            None => *final(state) matches Some(s)
                && s.max_overshield == level as int * CHARGE_PER_LEVEL
                && s.current_overshield == s.max_overshield
                && s.ms_until_recharge == 0,
            Some(s) => {
                if s.max_overshield == level as int * CHARGE_PER_LEVEL {
                    *final(state) == Some(s)
                } else {
                    *final(state) matches Some(s2)
                        && s2.max_overshield == level as int * CHARGE_PER_LEVEL
                        && s2.current_overshield == s2.max_overshield
                        && s2.ms_until_recharge == s.ms_until_recharge
                }
            },
        },
{
    let max: i32 = (level as i32) * CHARGE_PER_LEVEL;
    match state {
        Some(s) => {
            if s.max_overshield != max {
                s.max_overshield = max;
                s.current_overshield = max;
            }
        },
        None => {
            *state = Some(OvershieldState::from_level(level));
        },
    }
}

/// The shield state reached after a run of calm ticks, at specification
/// level: each entry of `dts` is one tick's elapsed milliseconds.
pub open spec fn recharge_run(s: OvershieldState, dts: Seq<nat>) -> OvershieldState
    decreases dts.len(),
{
    if dts.len() == 0 {
        s
    } else {
        recharge_run(spec_recharge_step(s, dts[0]), dts.skip(1))
    }
}

/// Specification mirror of `OvershieldState::recharge_step`.
pub open spec fn spec_recharge_step(s: OvershieldState, dt: nat) -> OvershieldState {
    if s.current_overshield >= s.max_overshield {
        s
    } else if dt < s.ms_until_recharge {
        OvershieldState {
            ms_until_recharge: (s.ms_until_recharge - dt) as u32,
            ..s
        }
    } else {
        OvershieldState {
            current_overshield: (s.current_overshield + 1) as i32,
            ms_until_recharge: RECHARGE_STEP_MS,
            ..s
        }
    }
}

/// Total milliseconds in a run of ticks.
pub open spec fn total_ms(dts: Seq<nat>) -> int
    decreases dts.len(),
{
    if dts.len() == 0 {
        0
    } else {
        dts[0] + total_ms(dts.skip(1))
    }
}

pub proof fn lemma_total_ms_nonneg(dts: Seq<nat>)
    ensures
        total_ms(dts) >= 0,
    decreases dts.len(),
{
    if dts.len() > 0 {
        lemma_total_ms_nonneg(dts.skip(1));
    }
}

/// Recharge resumes only after the configured delay has elapsed with no
/// further damage: starting from the state damage leaves behind, any run
/// of calm ticks whose total elapsed time is shorter than the pending
/// delay regains no charge at all.
pub proof fn lemma_recharge_waits_for_delay(s: OvershieldState, dts: Seq<nat>)
    requires
        s.current_overshield < s.max_overshield,
        total_ms(dts) < s.ms_until_recharge,
    ensures
        recharge_run(s, dts).current_overshield == s.current_overshield,
        recharge_run(s, dts).ms_until_recharge >= s.ms_until_recharge - total_ms(dts),
    decreases dts.len(),
{
    if dts.len() == 0 {
    } else {
        let s2 = spec_recharge_step(s, dts[0]);
        assert(total_ms(dts) == dts[0] + total_ms(dts.skip(1)));
        lemma_total_ms_nonneg(dts.skip(1));
        lemma_recharge_waits_for_delay(s2, dts.skip(1));
    }
}

/// Recharge never overshoots: charge stays within capacity through any
/// run of calm ticks, and capacity itself never moves.
pub proof fn lemma_recharge_stays_within_capacity(s: OvershieldState, dts: Seq<nat>)
    requires
        s.wf(),
    ensures
        recharge_run(s, dts).wf(),
        recharge_run(s, dts).max_overshield == s.max_overshield,
    decreases dts.len(),
{
    if dts.len() == 0 {
    } else {
        lemma_recharge_stays_within_capacity(spec_recharge_step(s, dts[0]), dts.skip(1));
    }
}

} // verus!
