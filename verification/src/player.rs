//! The player's speed variables, action and spawn handling.

use vstd::prelude::*;
use crate::fixed::{mag, VEL_LIMIT};
use crate::general::{Position, PositionModel};
use crate::state::PlayerState;

verus! {

/// Mathematical view of a [`PlayerSpeed`]: velocities as unbounded
/// integers in fixed-point sub-units, the contact angle in whole
/// degrees.
pub ghost struct SpeedModel {
    pub xsp: int,
    pub ysp: int,
    pub gsp: int,
    pub angle: int,
}

impl SpeedModel {
    /// Velocities stay within the representable range and the angle is
    /// reduced mod 360.
    pub open spec fn wf(self) -> bool {
        &&& mag(self.xsp) <= VEL_LIMIT
        &&& mag(self.ysp) <= VEL_LIMIT
        &&& mag(self.gsp) <= VEL_LIMIT
        &&& 0 <= self.angle < 360
    }
}

/// The speed variables for a player.
///
/// `gsp` is authoritative only while grounded; `xsp`/`ysp` are
/// authoritative while airborne and are recomputed from `gsp` and
/// `angle` each grounded tick.
#[derive(Clone, Copy, Debug, PartialEq, Eq, Structural)]
pub struct PlayerSpeed {
    /// Horizontal speed, fixed-point sub-units per tick
    pub xsp: i64,
    /// Vertical speed, fixed-point sub-units per tick
    pub ysp: i64,
    /// Ground movement speed, fixed-point sub-units per tick
    pub gsp: i64,
    /// Ground angle, whole degrees, reduced mod 360
    pub angle: u16,
}

impl View for PlayerSpeed {
    type V = SpeedModel;

    open spec fn view(&self) -> SpeedModel {
        SpeedModel {
            xsp: self.xsp as int,
            ysp: self.ysp as int,
            gsp: self.gsp as int,
            angle: self.angle as int,
        }
    }
}

impl Default for PlayerSpeed {
    /// At rest on flat ground.
    fn default() -> (r: Self)
        ensures
            r@ == (SpeedModel { xsp: 0, ysp: 0, gsp: 0, angle: 0 }),
    {
        PlayerSpeed { xsp: 0, ysp: 0, gsp: 0, angle: 0 }
    }
}

/// The current player action.
#[derive(Clone, Copy, Debug, PartialEq, Eq, Structural)]
pub enum PlayerAction {
    /// Player is idling, walking or running.
    Default,
    /// Player is jumping.
    Jumping,
    /// Player is rolling on the ground.
    Rolling,
    /// Player is ducking while standing still.
    Crouching,
    /// Player is looking up while standing still.
    LookingUp,
    /// Player is skidding.
    Skidding,
}

impl Default for PlayerAction {
    /// Idling, walking or running.
    fn default() -> (r: Self)
        ensures
            r == PlayerAction::Default,
    {
        PlayerAction::Default
    }
}

/// The spawn point, in fixed-point sub-units (30, 240 in pixels).
pub const SPAWN_X: i64 = 30 * 65536;

/// See [`SPAWN_X`].
pub const SPAWN_Y: i64 = 240 * 65536;

/// Utility functions related to player entities.  The entity itself
/// lives in whatever store the embedding program uses; these functions
/// work on its components.
pub struct Player;

impl Player {
    /// Reset one player to the spawn point: standing on the ground at
    /// the spawn position, motionless, in the default action.
    pub fn respawn(state: &mut PlayerState, position: &mut Position, speed: &mut PlayerSpeed)
        ensures
            final(position)@ == (PositionModel { x: SPAWN_X as int, y: SPAWN_Y as int }),
            final(speed)@ == (SpeedModel { xsp: 0, ysp: 0, gsp: 0, angle: 0 }),
            *final(state) == PlayerState::spec_spawn(),
    {
        *position = Position::new(SPAWN_X, SPAWN_Y);
        *speed = PlayerSpeed::default();
        *state = PlayerState::default();
    }
}

} // verus!
