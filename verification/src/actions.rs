//! Player input turned into actions: the per-tick movement intent the
//! movement system consumes. Reading the devices, touch joysticks and
//! zoom gestures is the engine shell's work; what is decided here is
//! the direction the pressed keys add up to.

use vstd::prelude::*;

verus! {

/// The player's intent this tick, derived from current input state.
pub struct Actions {
    /// The direction the player steers in, one unit per axis; absent
    /// when no direction key is held. The shell scales it to a unit
    /// vector before applying speed.
    pub player_movement: Option<(i8, i8)>,
    /// A touch device has been seen this round.
    pub touch_detected: bool,
}

/// Combine the four direction keys into this tick's movement intent:
/// opposite keys cancel, and with nothing held the intent is absent,
/// so an idle player drifts instead of steering.
pub fn set_movement_actions(
    actions: &mut Actions,
    left: bool,
    right: bool,
    up: bool,
    down: bool,
)
    ensures
        final(actions).touch_detected == old(actions).touch_detected,
        ({
            let dx = (if right { 1int } else { 0int }) - (if left { 1int } else { 0int });
            let dy = (if up { 1int } else { 0int }) - (if down { 1int } else { 0int });
            if dx == 0 && dy == 0 {
                final(actions).player_movement.is_none()
            } else {
                final(actions).player_movement == Some((dx as i8, dy as i8))
            }
        }),
{
    let dx: i8 = (if right { 1i8 } else { 0i8 }) - (if left { 1i8 } else { 0i8 });
    let dy: i8 = (if up { 1i8 } else { 0i8 }) - (if down { 1i8 } else { 0i8 });
    if dx == 0 && dy == 0 {
        actions.player_movement = None;
    } else {
        actions.player_movement = Some((dx, dy));
    }
}

} // verus!
