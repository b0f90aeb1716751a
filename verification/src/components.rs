//! Coordinate types of the two grids and the item kinds.

use vstd::prelude::*;

use crate::config::{ARENA_HEIGHT, ARENA_WIDTH, CONSUMABLE_HEIGHT, CONSUMABLE_SCALE_FACTOR,
    CONSUMABLE_WIDTH};

verus! {

/// A cell of the fine grid the chain moves on.
#[derive(Clone, Copy, Debug, PartialEq, Eq, Structural, Hash)]
pub struct Position {
    pub x: i32,
    pub y: i32,
}

/// A cell of the coarse grid that items are placed on.
#[derive(Clone, Copy, Debug, PartialEq, Eq, Structural, Hash)]
pub struct ConsumablePosition {
    pub x: i32,
    pub y: i32,
}

/// The kinds of item a coarse cell can hold.
#[derive(Clone, Copy, Debug, PartialEq, Eq, Structural)]
pub enum Obstacle {
    Food,
    Poison,
    Superfood,
    Antidote,
    Wall,
}

/// A requested movement direction of the chain's head: one step along
/// each axis, or none.  Both axes may be set at once, which yields a
/// diagonal step.
#[derive(Clone, Copy, Debug, PartialEq, Eq, Structural)]
pub struct Direction {
    pub x: i32,
    pub y: i32,
}

impl Direction {
    /// Each axis moves by one cell at most.
    pub open spec fn valid(self) -> bool {
        -1 <= self.x <= 1 && -1 <= self.y <= 1
    }

    /// A zero direction leaves the chain where it is.
    pub open spec fn is_zero(self) -> bool {
        self.x == 0 && self.y == 0
    }

    /// The direction of a chain before the first input arrives.
    pub fn none() -> (d: Direction)
        ensures
            d.is_zero(),
            d.valid(),
    {
        Direction { x: 0, y: 0 }
    }
}

/// The chain's head state beyond its cell: the facing direction.
/// The head's cell itself is the first segment of the chain.
#[derive(Clone, Copy, Debug, PartialEq, Eq, Structural)]
pub struct DiplopodHead {
    pub direction: Direction,
}

impl Default for DiplopodHead {
    /// Before the first input arrives the chain faces nowhere and
    /// does not move.
    fn default() -> (h: DiplopodHead)
        ensures
            h.direction.is_zero(),
            h.direction.valid(),
    {
        DiplopodHead { direction: Direction::none() }
    }
}

/// The coarse cell a fine cell lies in.
pub open spec fn spec_to_consumable_position(p: Position) -> ConsumablePosition {
    ConsumablePosition {
        x: (p.x / CONSUMABLE_SCALE_FACTOR) as i32,
        y: (p.y / CONSUMABLE_SCALE_FACTOR) as i32,
    }
}

/// The fine cell lies inside the fine grid.
pub open spec fn fine_in_bounds(p: Position) -> bool {
    0 <= p.x < ARENA_WIDTH && 0 <= p.y < ARENA_HEIGHT
}

/// The coarse cell lies inside the coarse grid, border included.
pub open spec fn grid_cell(c: ConsumablePosition) -> bool {
    0 <= c.x <= CONSUMABLE_WIDTH && 0 <= c.y <= CONSUMABLE_HEIGHT
}

/// The coarse cell lies on the grid's border, where the wall stands.
pub open spec fn border_cell(c: ConsumablePosition) -> bool {
    grid_cell(c) && (c.x == 0 || c.x == CONSUMABLE_WIDTH || c.y == 0 || c.y == CONSUMABLE_HEIGHT)
}

/// The coarse cell lies strictly inside the wall border.
pub open spec fn interior_cell(c: ConsumablePosition) -> bool {
    grid_cell(c) && !border_cell(c)
}

impl Position {
    /// The coarse cell this fine cell lies in.
    pub fn to_consumable_position(&self) -> (c: ConsumablePosition)
        requires
            0 <= self.x,
            0 <= self.y,
        ensures
            c == spec_to_consumable_position(*self),
    {
        ConsumablePosition { x: self.x / CONSUMABLE_SCALE_FACTOR, y: self.y / CONSUMABLE_SCALE_FACTOR }
    }
}

} // verus!
