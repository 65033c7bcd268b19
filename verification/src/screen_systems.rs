//! Screen-level state: which screen is current, and the per-tick
//! selection of the camera behaviours from the player's state.
//!
//! The selection functions are the decision half of the level screen's
//! tick; the embedding program queries the entity store, calls them,
//! and writes the results into the camera before updating it.

use vstd::prelude::*;
use crate::camera::{CameraDisplacementBehaviour, CameraVerticalBehaviour};
use crate::fixed::FX_ONE;
use crate::player::PlayerAction;

verus! {

/// How many consecutive ticks of a held vertical key arm the look
/// up/down camera pan.
pub const CAMERA_PAN_DELAY: i32 = 120;

/// Enumeration to determine the current screen being drawn and
/// updated.
#[derive(Clone, Copy, Debug, PartialEq, Eq, Structural)]
pub enum Navigation {
    TitleScreen,
    LevelScreen,
    Settings,
}

impl Default for Navigation {
    /// Navigation starts on the title screen.
    fn default() -> (r: Self)
        ensures
            r == Navigation::TitleScreen,
    {
        Navigation::TitleScreen
    }
}

/// How many physics ticks are due once `accumulated` time units have
/// piled up, with ticks `tick_length` units apart: the decision
/// behind the fixed-tick frame loop.  Returns the number of ticks to
/// run this frame and the time left in the accumulator, so that the
/// logical rate stays decoupled from the display refresh.
pub fn ticks_due(accumulated: u64, tick_length: u64) -> (r: (u64, u64))
    requires
        tick_length > 0,
    ensures
        r.0 == accumulated as int / tick_length as int,
        r.1 == accumulated as int % tick_length as int,
        accumulated == tick_length * r.0 + r.1,
        r.1 < tick_length,
{
    proof {
        vstd::arithmetic::div_mod::lemma_fundamental_div_mod(
            accumulated as int,
            tick_length as int,
        );
    }
    (accumulated / tick_length, accumulated % tick_length)
}

/// Advance the camera pan timer: it counts consecutive ticks in which
/// exactly one of Up/Down is held, saturating at
/// [`CAMERA_PAN_DELAY`], and resets otherwise.
pub fn update_camera_timer(timer: i32, up: bool, down: bool) -> (r: i32)
    requires
        0 <= timer <= CAMERA_PAN_DELAY,
    ensures
        r == (if (up && !down) || (!up && down) {
            if timer + 1 <= CAMERA_PAN_DELAY {
                timer + 1
            } else {
                CAMERA_PAN_DELAY as int
            }
        } else {
            0
        }),
        0 <= r <= CAMERA_PAN_DELAY,
{
    if (up && !down) || (!up && down) {
        let t: i32 = timer + 1;
        if t <= CAMERA_PAN_DELAY {
            t
        } else {
            CAMERA_PAN_DELAY
        }
    } else {
        0
    }
}

/// Select the camera's vertical behaviour from the player's state:
/// bounds-respecting while airborne, otherwise a centered chase whose
/// rate follows the vertical speed.
pub fn select_vertical_behaviour(ground: bool, ysp: i64) -> (r: CameraVerticalBehaviour)
    requires
        ysp > i64::MIN,
    ensures
        r == (if !ground {
            CameraVerticalBehaviour::RespectBounds
        } else if crate::fixed::mag(ysp as int) <= 6 * FX_ONE {
            CameraVerticalBehaviour::CenterYSlow
        } else {
            CameraVerticalBehaviour::CenterYFast
        }),
{
    if !ground {
        CameraVerticalBehaviour::RespectBounds
    } else {
        let m: i64 = crate::fixed::fx_abs(ysp);
        if m <= 6 * FX_ONE {
            CameraVerticalBehaviour::CenterYSlow
        } else {
            CameraVerticalBehaviour::CenterYFast
        }
    }
}

/// Select the camera's pan behaviour: once the pan timer is armed, a
/// held looking-up pose pans up and a crouching pose pans down;
/// anything else re-centers.
pub fn select_displacement_behaviour(timer: i32, action: PlayerAction) -> (r:
    CameraDisplacementBehaviour)
    ensures
        r == (if timer >= CAMERA_PAN_DELAY {
            match action {
                PlayerAction::LookingUp => CameraDisplacementBehaviour::LookUp,
                PlayerAction::Crouching => CameraDisplacementBehaviour::LookDown,
                _ => CameraDisplacementBehaviour::Recenter,
            }
        } else {
            CameraDisplacementBehaviour::Recenter
        }),
{
    if timer >= CAMERA_PAN_DELAY {
        match action {
            PlayerAction::LookingUp => CameraDisplacementBehaviour::LookUp,
            PlayerAction::Crouching => CameraDisplacementBehaviour::LookDown,
            _ => CameraDisplacementBehaviour::Recenter,
        }
    } else {
        CameraDisplacementBehaviour::Recenter
    }
}

} // verus!
