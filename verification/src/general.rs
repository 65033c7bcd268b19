//! General-purpose components: tags, positions and facing directions.

use vstd::prelude::*;
use crate::fixed::{mag, POS_LIMIT};

verus! {

/// A multi-purpose tag component which can be attached to any entity,
/// usable as a flag or as an extra generic value.
#[derive(Clone, Copy, Debug, PartialEq, Eq, Structural)]
pub struct Tag(pub u64);

impl Default for Tag {
    /// The zero tag.
    fn default() -> (r: Self)
        ensures
            r == (Tag(0u64)),
    {
        Tag(0)
    }
}

/// Mathematical view of a [`Position`]: a point of the plane with
/// unbounded integer coordinates, in fixed-point sub-units.
pub ghost struct PositionModel {
    pub x: int,
    pub y: int,
}

impl PositionModel {
    /// Both coordinates stay within the representable world.
    pub open spec fn wf(self) -> bool {
        mag(self.x) <= POS_LIMIT && mag(self.y) <= POS_LIMIT
    }
}

/// A position on the 2D plane, in fixed-point sub-units
/// ([`crate::fixed::FX_ONE`] sub-units per pixel).
#[derive(Clone, Copy, Debug, PartialEq, Eq, Structural)]
pub struct Position {
    pub x: i64,
    pub y: i64,
}

impl View for Position {
    type V = PositionModel;

    open spec fn view(&self) -> PositionModel {
        PositionModel { x: self.x as int, y: self.y as int }
    }
}

impl Default for Position {
    /// The origin.
    fn default() -> (r: Self)
        ensures
            r@ == (PositionModel { x: 0, y: 0 }),
    {
        Position { x: 0, y: 0 }
    }
}

impl Position {
    /// Create a new position from a specific point.
    pub fn new(x: i64, y: i64) -> (r: Self)
        ensures
            r@ == (PositionModel { x: x as int, y: y as int }),
    {
        Position { x, y }
    }

    /// Create a position from another.
    pub fn from(pos: &Self) -> (r: Self)
        ensures
            r == *pos,
    {
        Position { x: pos.x, y: pos.y }
    }
}

/// A facing direction for anything.
#[derive(Clone, Copy, Debug, PartialEq, Eq, Structural)]
pub enum Direction {
    Left,
    Right,
}

impl Default for Direction {
    /// Everything faces right until told otherwise.
    fn default() -> (r: Self)
        ensures
            r == Direction::Right,
    {
        Direction::Right
    }
}

} // verus!
