//! The player's collision sensors and hitbox geometry.
//!
//! Drawing the sensor overlay is the renderer's business; this module
//! decides the geometry it draws: whether the player uses the small
//! hitbox, and the hitbox rectangle for each action.

use vstd::prelude::*;
use crate::fixed::FX_ONE;
use crate::player::PlayerAction;

verus! {

/// An axis-aligned rectangle in fixed-point sub-units: position of the
/// top-left corner relative to the player's hotspot, then width and
/// height.
#[derive(Clone, Copy, Debug, PartialEq, Eq, Structural)]
pub struct SensorRect {
    pub x: i64,
    pub y: i64,
    pub w: i64,
    pub h: i64,
}

/// Logic for the player's sensors.  The player entity itself lives in
/// the embedding program's store; these functions work on its action.
pub struct PlayerSensors;

impl PlayerSensors {
    /// Whether the action curls the player into the small shape, which
    /// shortens the vertical sensors by the crouch offset.
    pub fn is_small(action: PlayerAction) -> (r: bool)
        ensures
            r == (action == PlayerAction::Rolling || action == PlayerAction::Jumping || action
                == PlayerAction::Crouching),
    {
        action == PlayerAction::Rolling || action == PlayerAction::Jumping || action
            == PlayerAction::Crouching
    }

    /// How far the vertical sensors shorten for the small shape:
    /// 5 pixels, or nothing for the standing shape.
    pub fn crouch_offset(action: PlayerAction) -> (r: i64)
        ensures
            r == (if action == PlayerAction::Rolling || action == PlayerAction::Jumping || action
                == PlayerAction::Crouching {
                5 * FX_ONE as int
            } else {
                0
            }),
    {
        if Self::is_small(action) {
            5 * FX_ONE
        } else {
            0
        }
    }

    /// The hitbox rectangle for the given action: the curled shape
    /// while rolling or jumping, the crouched shape while crouching,
    /// and the standing shape otherwise.
    pub fn hitbox(action: PlayerAction) -> (r: SensorRect)
        ensures
            r == (if action == PlayerAction::Rolling || action == PlayerAction::Jumping {
                SensorRect {
                    x: (-8 * FX_ONE) as i64,
                    y: (-10 * FX_ONE) as i64,
                    w: (17 * FX_ONE) as i64,
                    h: (21 * FX_ONE) as i64,
                }
            } else if action == PlayerAction::Crouching {
                SensorRect {
                    x: (-8 * FX_ONE) as i64,
                    y: (-4 * FX_ONE) as i64,
                    w: (17 * FX_ONE) as i64,
                    h: (17 * FX_ONE) as i64,
                }
            } else {
                SensorRect {
                    x: (-8 * FX_ONE) as i64,
                    y: (-16 * FX_ONE) as i64,
                    w: (17 * FX_ONE) as i64,
                    h: (33 * FX_ONE) as i64,
                }
            }),
    {
        if action == PlayerAction::Rolling || action == PlayerAction::Jumping {
            SensorRect { x: -8 * FX_ONE, y: -10 * FX_ONE, w: 17 * FX_ONE, h: 21 * FX_ONE }
        } else if action == PlayerAction::Crouching {
            SensorRect { x: -8 * FX_ONE, y: -4 * FX_ONE, w: 17 * FX_ONE, h: 17 * FX_ONE }
        } else {
            SensorRect { x: -8 * FX_ONE, y: -16 * FX_ONE, w: 17 * FX_ONE, h: 33 * FX_ONE }
        }
    }
}

} // verus!
