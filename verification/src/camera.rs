//! The camera controller.
//!
//! The camera tracks a followed position with a dead-zone rectangle
//! around its raw position and mode-dependent catch-up rates, plus a
//! secondary vertical "look-ahead" pan.  Only the raw position and the
//! pan displacement persist across ticks; the behaviours are pure
//! per-tick selectors set from outside before each update.  The output
//! position never frames above or left of the viewport center.
//!
//! All coordinates are fixed-point sub-units, as everywhere in the
//! crate.  The fields are public so that the contracts can speak of
//! them; the embedding program should treat everything but `position`
//! and the two behaviours as internal.

use vstd::prelude::*;
use crate::fixed::{mag, POS_LIMIT};
use crate::general::{Position, PositionModel};

verus! {

/// Dead-zone left edge, relative to the raw position (-16 pixels).
pub const BORDER_LEFT: i64 = -16 * 65536;

/// Dead-zone top edge, relative to the raw position (-32 pixels).
pub const BORDER_TOP: i64 = -32 * 65536;

/// Dead-zone right edge, relative to the raw position (+16 pixels).
pub const BORDER_RIGHT: i64 = 16 * 65536;

/// Dead-zone bottom edge, relative to the raw position (+64 pixels).
pub const BORDER_BOTTOM: i64 = 64 * 65536;

/// Fast catch-up rate: 16 pixels per tick, used horizontally and by
/// the fast and bounds-respecting vertical behaviours.
pub const CAM_CHASE_FAST: i64 = 16 * 65536;

/// Slow catch-up rate: 6 pixels per tick.
pub const CAM_CHASE_SLOW: i64 = 6 * 65536;

/// Pan displacement step: 2 pixels per tick.
pub const CAM_PAN_STEP: i64 = 2 * 65536;

/// Pan displacement floor when looking up: -104 pixels.
pub const CAM_PAN_UP_MIN: i64 = -104 * 65536;

/// Pan displacement cap when looking down: +88 pixels.
pub const CAM_PAN_DOWN_MAX: i64 = 88 * 65536;

/// Describes the vertical behaviour of the camera.
#[derive(Clone, Copy, Debug, PartialEq, Eq, Structural)]
pub enum CameraVerticalBehaviour {
    /// Follow the target so that the camera is always centered on the
    /// Y axis, catching up at 6 pixels per tick at most.
    CenterYSlow,
    /// Follow the target so that the camera is always centered on the
    /// Y axis, catching up at 16 pixels per tick at most.
    CenterYFast,
    /// Default behaviour, and the behaviour whenever the player is in
    /// the air: respect the dead-zone, and catch up at 16 pixels per
    /// tick at most once the target leaves it vertically.
    RespectBounds,
}

/// Describes the displacement behaviour of the camera: a secondary
/// vertical pan used to make the character look up or down.
#[derive(Clone, Copy, Debug, PartialEq, Eq, Structural)]
pub enum CameraDisplacementBehaviour {
    /// No active pan; re-centers the camera if not centralized.
    Recenter,
    /// Slowly pans the camera up until it reaches 104 pixels up.
    LookUp,
    /// Slowly pans the camera down until it reaches 88 pixels down.
    LookDown,
}

/// The larger of two integers.
pub open spec fn imax(a: int, b: int) -> int {
    if a >= b {
        a
    } else {
        b
    }
}

/// The smaller of two integers.
pub open spec fn imin(a: int, b: int) -> int {
    if a <= b {
        a
    } else {
        b
    }
}

/// Move `current` toward `target` by at most `step`, regardless of any
/// dead-zone.
pub open spec fn spec_chase(current: int, target: int, step: int) -> int {
    if target < current {
        current - imin(current - target, step)
    } else if target > current {
        current + imin(target - current, step)
    } else {
        current
    }
}

/// Move `current` by at most `step` only when `target` lies outside
/// the interval `[lo, hi]`, and only far enough to contain it again.
pub open spec fn spec_border_chase(current: int, lo: int, hi: int, target: int, step: int) -> int {
    if target < lo {
        current - imin(lo - target, step)
    } else if target > hi {
        current + imin(target - hi, step)
    } else {
        current
    }
}

/// One tick of the pan displacement: decay toward zero, or run toward
/// the look-up floor or the look-down cap.
pub open spec fn spec_displacement(disp: int, b: CameraDisplacementBehaviour) -> int {
    match b {
        CameraDisplacementBehaviour::Recenter => {
            if disp > 0 {
                imax(disp - CAM_PAN_STEP, 0)
            } else if disp < 0 {
                imin(disp + CAM_PAN_STEP, 0)
            } else {
                0
            }
        },
        CameraDisplacementBehaviour::LookDown => imin(disp + CAM_PAN_STEP, CAM_PAN_DOWN_MAX as int),
        CameraDisplacementBehaviour::LookUp => imax(disp - CAM_PAN_STEP, CAM_PAN_UP_MIN as int),
    }
}

/// The raw horizontal position after one tick, given the followed
/// target, if any.
pub open spec fn spec_raw_x(raw_x: int, followed: Option<PositionModel>) -> int {
    match followed {
        Some(t) => spec_border_chase(
            raw_x,
            raw_x + BORDER_LEFT,
            raw_x + BORDER_RIGHT,
            t.x,
            CAM_CHASE_FAST as int,
        ),
        None => raw_x,
    }
}

/// The raw vertical position after one tick, given the followed
/// target, if any, and the selected vertical behaviour.
pub open spec fn spec_raw_y(
    raw_y: int,
    vb: CameraVerticalBehaviour,
    followed: Option<PositionModel>,
) -> int {
    match followed {
        Some(t) => match vb {
            CameraVerticalBehaviour::CenterYSlow => spec_chase(raw_y, t.y, CAM_CHASE_SLOW as int),
            CameraVerticalBehaviour::CenterYFast => spec_chase(raw_y, t.y, CAM_CHASE_FAST as int),
            CameraVerticalBehaviour::RespectBounds => spec_border_chase(
                raw_y,
                raw_y + BORDER_TOP,
                raw_y + BORDER_BOTTOM,
                t.y,
                CAM_CHASE_FAST as int,
            ),
        },
        None => raw_y,
    }
}

/// Data related to the camera of one screen.
///
/// The camera recalculates elements' positions for rendering through
/// [`Camera::transform`]; it is not itself an object on the scene.
#[derive(Clone, Copy, Debug, PartialEq, Eq, Structural)]
pub struct Camera {
    /// Final position of the camera.
    pub position: Position,
    /// Vertical behaviour of the camera boundaries.
    pub vertical_behaviour: CameraVerticalBehaviour,
    /// Displacement behaviour of the camera.
    pub displacement_behaviour: CameraDisplacementBehaviour,
    /// Internal tracking accumulator: where the dead-zone sits.
    pub raw_position: Position,
    /// Half the viewport size: the camera's minimum framing.
    pub center: Position,
    /// Internal vertical pan accumulator.
    pub displacement: i64,
}

impl Camera {
    /// All persistent quantities stay in their meaningful ranges: the
    /// center is non-negative, the raw position stays in the world, the
    /// pan stays between its floor and cap, and the output position
    /// stays representable.
    pub open spec fn wf(self) -> bool {
        &&& 0 <= self.center.x <= POS_LIMIT
        &&& 0 <= self.center.y <= POS_LIMIT
        &&& mag(self.raw_position@.x) <= POS_LIMIT
        &&& mag(self.raw_position@.y) <= POS_LIMIT
        &&& CAM_PAN_UP_MIN <= self.displacement <= CAM_PAN_DOWN_MAX
        &&& mag(self.position@.x) <= POS_LIMIT
        &&& mag(self.position@.y) <= POS_LIMIT + CAM_PAN_DOWN_MAX
    }

    /// Create a new camera object with its default boundaries, centered
    /// framing `(center_x, center_y)` (half the viewport size).
    pub fn new(center_x: i64, center_y: i64) -> (r: Self)
        requires
            0 <= center_x <= POS_LIMIT,
            0 <= center_y <= POS_LIMIT,
        ensures
            r.wf(),
            r.position@ == (PositionModel { x: 0, y: 0 }),
            r.raw_position@ == (PositionModel { x: 0, y: 0 }),
            r.center@ == (PositionModel { x: center_x as int, y: center_y as int }),
            r.displacement == 0,
            r.vertical_behaviour == CameraVerticalBehaviour::RespectBounds,
            r.displacement_behaviour == CameraDisplacementBehaviour::Recenter,
    {
        Self {
            position: Position::default(),
            raw_position: Position::default(),
            center: Position::new(center_x, center_y),
            vertical_behaviour: CameraVerticalBehaviour::RespectBounds,
            displacement_behaviour: CameraDisplacementBehaviour::Recenter,
            displacement: 0,
        }
    }

    /// Transform a vertex so that it is contained on screen: the
    /// canonical world-to-screen mapping for any renderer.
    pub fn transform(&self, vertex: &Position) -> (r: Position)
        requires
            self.wf(),
            vertex@.wf(),
        ensures
            r@.x == vertex@.x - self.position@.x + self.center@.x,
            r@.y == vertex@.y - self.position@.y + self.center@.y,
    {
        Position::new(
            vertex.x - self.position.x + self.center.x,
            vertex.y - self.position.y + self.center.y,
        )
    }

    /// The dead-zone edges around the current raw position: left,
    /// right, top, bottom.
    fn boundaries(&self) -> (r: (i64, i64, i64, i64))
        requires
            self.wf(),
        ensures
            r.0 == self.raw_position@.x + BORDER_LEFT,
            r.1 == self.raw_position@.x + BORDER_RIGHT,
            r.2 == self.raw_position@.y + BORDER_TOP,
            r.3 == self.raw_position@.y + BORDER_BOTTOM,
    {
        let pos = &self.raw_position;
        (
            pos.x + BORDER_LEFT,
            pos.x + BORDER_RIGHT,
            pos.y + BORDER_TOP,
            pos.y + BORDER_BOTTOM,
        )
    }

    /// Update the camera position according to its behaviour,
    /// following the optionally given position: chase the target out of
    /// the dead-zone, advance the pan displacement, and place the
    /// output at the raw position plus pan, never framing above or
    /// left of the center.
    pub fn update(&mut self, followed: Option<&Position>)
        requires
            old(self).wf(),
            followed is Some ==> followed->0@.wf(),
        ensures
            final(self).wf(),
            final(self).raw_position@.x == spec_raw_x(
                old(self).raw_position@.x,
                match followed {
                    Some(t) => Some(t@),
                    None => None,
                },
            ),
            final(self).raw_position@.y == spec_raw_y(
                old(self).raw_position@.y,
                old(self).vertical_behaviour,
                match followed {
                    Some(t) => Some(t@),
                    None => None,
                },
            ),
            final(self).displacement == spec_displacement(
                old(self).displacement as int,
                old(self).displacement_behaviour,
            ),
            final(self).position@.x == imax(final(self).raw_position@.x, old(self).center@.x),
            final(self).position@.y == imax(
                final(self).raw_position@.y + final(self).displacement,
                old(self).center@.y,
            ),
            final(self).position@.x >= final(self).center@.x,
            final(self).position@.y >= final(self).center@.y,
            final(self).center == old(self).center,
            final(self).vertical_behaviour == old(self).vertical_behaviour,
            final(self).displacement_behaviour == old(self).displacement_behaviour,
    {
        if let Some(followed_pos) = followed {
            let (left, right, top, bottom) = self.boundaries();
            let target = *followed_pos;

            // Horizontal borders
            self.raw_position.x = self.raw_position.x + (if target.x < left {
                let gap: i64 = left - target.x;
                -(if gap < CAM_CHASE_FAST {
                    gap
                } else {
                    CAM_CHASE_FAST
                })
            } else if target.x > right {
                let gap: i64 = target.x - right;
                if gap < CAM_CHASE_FAST {
                    gap
                } else {
                    CAM_CHASE_FAST
                }
            } else {
                0
            });

            // Vertical borders
            let raw_y: i64 = self.raw_position.y;
            self.raw_position.y = raw_y + (match self.vertical_behaviour {
                CameraVerticalBehaviour::CenterYSlow => {
                    if target.y < raw_y {
                        let gap: i64 = raw_y - target.y;
                        -(if gap < CAM_CHASE_SLOW {
                            gap
                        } else {
                            CAM_CHASE_SLOW
                        })
                    } else if target.y > raw_y {
                        let gap: i64 = target.y - raw_y;
                        if gap < CAM_CHASE_SLOW {
                            gap
                        } else {
                            CAM_CHASE_SLOW
                        }
                    } else {
                        0
                    }
                },
                CameraVerticalBehaviour::CenterYFast => {
                    if target.y < raw_y {
                        let gap: i64 = raw_y - target.y;
                        -(if gap < CAM_CHASE_FAST {
                            gap
                        } else {
                            CAM_CHASE_FAST
                        })
                    } else if target.y > raw_y {
                        let gap: i64 = target.y - raw_y;
                        if gap < CAM_CHASE_FAST {
                            gap
                        } else {
                            CAM_CHASE_FAST
                        }
                    } else {
                        0
                    }
                },
                CameraVerticalBehaviour::RespectBounds => {
                    if target.y < top {
                        let gap: i64 = top - target.y;
                        -(if gap < CAM_CHASE_FAST {
                            gap
                        } else {
                            CAM_CHASE_FAST
                        })
                    } else if target.y > bottom {
                        let gap: i64 = target.y - bottom;
                        if gap < CAM_CHASE_FAST {
                            gap
                        } else {
                            CAM_CHASE_FAST
                        }
                    } else {
                        0
                    }
                },
            });
        }

        // Apply displacement behaviour
        match self.displacement_behaviour {
            CameraDisplacementBehaviour::Recenter => {
                self.displacement = if self.displacement > 0 {
                    let d: i64 = self.displacement - CAM_PAN_STEP;
                    if d > 0 {
                        d
                    } else {
                        0
                    }
                } else if self.displacement < 0 {
                    let d: i64 = self.displacement + CAM_PAN_STEP;
                    if d < 0 {
                        d
                    } else {
                        0
                    }
                } else {
                    0
                };
            },
            CameraDisplacementBehaviour::LookDown => {
                let d: i64 = self.displacement + CAM_PAN_STEP;
                self.displacement = if d < CAM_PAN_DOWN_MAX {
                    d
                } else {
                    CAM_PAN_DOWN_MAX
                };
            },
            CameraDisplacementBehaviour::LookUp => {
                let d: i64 = self.displacement - CAM_PAN_STEP;
                self.displacement = if d > CAM_PAN_UP_MIN {
                    d
                } else {
                    CAM_PAN_UP_MIN
                };
            },
        }

        // Define position considering displacement.  Also prevent going
        // beyond the minimum position.
        let px: i64 = self.raw_position.x;
        let py: i64 = self.raw_position.y + self.displacement;
        self.position.x = if px >= self.center.x {
            px
        } else {
            self.center.x
        };
        self.position.y = if py >= self.center.y {
            py
        } else {
            self.center.y
        };
    }
}

/// The camera never frames above or left of the viewport center: after
/// any update the output position dominates the center componentwise.
/// This is stated (and proved) by [`Camera::update`]'s contract; the
/// lemma only names it.
pub proof fn lemma_position_dominates_center(cam_before: Camera, cam_after: Camera)
    requires
        cam_after.position@.x == imax(cam_after.raw_position@.x, cam_before.center@.x),
        cam_after.position@.y == imax(
            cam_after.raw_position@.y + cam_after.displacement,
            cam_before.center@.y,
        ),
        cam_after.center == cam_before.center,
    ensures
        cam_after.position@.x >= cam_after.center@.x,
        cam_after.position@.y >= cam_after.center@.y,
{
}

} // verus!
