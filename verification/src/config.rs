//! Configuration constants of the arena and the spawn rules.

use vstd::prelude::*;

verus! {

/// Largest valid x coordinate of the coarse (consumable) grid.
pub const CONSUMABLE_WIDTH: i32 = 40;

/// Largest valid y coordinate of the coarse (consumable) grid.
pub const CONSUMABLE_HEIGHT: i32 = 22;

/// Number of fine cells per coarse cell, along each axis.
pub const CONSUMABLE_SCALE_FACTOR: i32 = 2;

/// Width of the fine grid the chain moves on.
pub const ARENA_WIDTH: i32 = (CONSUMABLE_WIDTH + 1) * CONSUMABLE_SCALE_FACTOR;

/// Height of the fine grid the chain moves on.
pub const ARENA_HEIGHT: i32 = (CONSUMABLE_HEIGHT + 1) * CONSUMABLE_SCALE_FACTOR;

/// Number of food items placed at round start.
pub const AMOUNT_OF_FOOD: u32 = 16;

/// Number of poison items placed at round start.
pub const AMOUNT_OF_POISON: u32 = 17;

/// A special spawn batch triggers whenever the chain length passes
/// another multiple of this interval.
pub const SPECIAL_SPAWN_INTERVAL: u32 = 16;

/// Immunity time units granted by one antidote, added on top of
/// whatever immunity time is left.
pub const ANTIDOTE_IMMUNITY_BONUS: u32 = 10;

/// Ceiling on the chain length, so that lengths and scores fit the
/// integer types that carry them.
pub const MAX_SEGMENTS: u32 = 0xFFFF;

/// Number of coarse cells of the whole grid, border included.
pub open spec fn grid_cells() -> int {
    (CONSUMABLE_WIDTH + 1) * (CONSUMABLE_HEIGHT + 1)
}

/// Number of coarse cells of the enclosing wall border.
pub open spec fn wall_cells() -> int {
    2 * (CONSUMABLE_WIDTH + 1) + 2 * (CONSUMABLE_HEIGHT - 1)
}

} // verus!
