//! Per-character physics tuning tables.

use vstd::prelude::*;
use crate::fixed::FX_ONE;

verus! {

/// Largest magnitude a tuning constant may take, in fixed-point
/// sub-units (256 pixels per tick).  The bound keeps every per-tick
/// adjustment far inside the arithmetic range.
pub const TUNING_LIMIT: i64 = 0x100_0000;

/// The player's speed constants.  All values are in fixed-point
/// sub-units per tick (or per tick squared), [`FX_ONE`] to the pixel.
#[derive(Clone, Copy, Debug, PartialEq, Eq, Structural)]
pub struct PlayerConstants {
    /// Ground acceleration
    pub acc: i64,
    /// Deceleration
    pub dec: i64,
    /// Friction, normally equals [`PlayerConstants::acc`]
    pub frc: i64,
    /// Top horizontal speed
    pub top: i64,
    /// Slope factor when walking or running
    pub slp: i64,
    /// Slope factor when rolling uphill
    pub slprollup: i64,
    /// Slope factor when rolling downhill
    pub slprolldown: i64,
    /// Minimum absolute speed for applying slope factor
    pub min_slp: i64,
    /// Tolerance ground speed for sticking to walls and ceilings
    pub fall: i64,
    /// Air acceleration, normally 2x [`PlayerConstants::acc`]
    pub air: i64,
    /// Jump force
    pub jmp: i64,
    /// Gravity
    pub grv: i64,
    /// Minimum jump speed for when the jump button is released
    pub minjmp: i64,
}

impl PlayerConstants {
    /// Every tuning value sits in its meaningful range: the rates and
    /// caps are non-negative, the release cap is non-positive, and all
    /// stay within [`TUNING_LIMIT`].
    pub open spec fn wf(self) -> bool {
        &&& 0 <= self.acc <= TUNING_LIMIT
        &&& 0 <= self.dec <= TUNING_LIMIT
        &&& 0 <= self.frc <= TUNING_LIMIT
        &&& 0 <= self.top <= TUNING_LIMIT
        &&& 0 <= self.slp <= TUNING_LIMIT
        &&& 0 <= self.slprollup <= TUNING_LIMIT
        &&& 0 <= self.slprolldown <= TUNING_LIMIT
        &&& 0 <= self.min_slp <= TUNING_LIMIT
        &&& 0 <= self.fall <= TUNING_LIMIT
        &&& 0 <= self.air <= TUNING_LIMIT
        &&& 0 <= self.jmp <= TUNING_LIMIT
        &&& 0 <= self.grv <= TUNING_LIMIT
        &&& -TUNING_LIMIT <= self.minjmp <= 0
    }

    /// The standard tuning table, as a spec-level value.
    pub open spec fn spec_default() -> PlayerConstants {
        PlayerConstants {
            acc: (3 * FX_ONE / 64) as i64,  // 0.046875 px
            dec: (FX_ONE / 2) as i64,  // 0.5 px
            frc: (3 * FX_ONE / 64) as i64,  // 0.046875 px
            top: (6 * FX_ONE) as i64,  // 6 px
            slp: (FX_ONE / 8) as i64,  // 0.125 px
            slprollup: (5 * FX_ONE / 64) as i64,  // 0.078125 px
            slprolldown: (5 * FX_ONE / 16) as i64,  // 0.3125 px
            min_slp: (13 * FX_ONE / 256) as i64,  // 0.05078125 px
            fall: (5 * FX_ONE / 2) as i64,  // 2.5 px
            air: (3 * FX_ONE / 32) as i64,  // 0.09375 px
            jmp: (13 * FX_ONE / 2) as i64,  // 6.5 px
            grv: (7 * FX_ONE / 32) as i64,  // 0.21875 px
            minjmp: (-4 * FX_ONE) as i64,  // -4 px
        }
    }

    /// Default constants for a heavy jumper: identical but for a lower
    /// jump force of 6 pixels per tick.
    pub fn default_knuckles() -> (r: Self)
        ensures
            r == (PlayerConstants { jmp: (6 * FX_ONE) as i64, ..Self::spec_default() }),
            r.wf(),
    {
        Self { jmp: 6 * FX_ONE, ..Self::default() }
    }
}

impl Default for PlayerConstants {
    /// Default constants for the standard character.
    fn default() -> (r: Self)
        ensures
            r == Self::spec_default(),
            r.wf(),
    {
        Self {
            acc: 3 * FX_ONE / 64,
            dec: FX_ONE / 2,
            frc: 3 * FX_ONE / 64,
            top: 6 * FX_ONE,
            slp: FX_ONE / 8,
            slprollup: 5 * FX_ONE / 64,
            slprolldown: 5 * FX_ONE / 16,
            min_slp: 13 * FX_ONE / 256,
            fall: 5 * FX_ONE / 2,
            air: 3 * FX_ONE / 32,
            jmp: 13 * FX_ONE / 2,
            grv: 7 * FX_ONE / 32,
            minjmp: -4 * FX_ONE,
        }
    }
}

} // verus!
