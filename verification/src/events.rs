//! Events the core emits for the shell: game over, spawn requests,
//! growth requests, and score toasts.

use vstd::prelude::*;

use crate::components::ConsumablePosition;

verus! {

/// The round is over: self-collision, a wall, or unprotected poison.
#[derive(Clone, Copy, Debug, PartialEq, Eq)]
pub struct GameOver;

/// A request to the spawn scheduler, emitted by the consumption
/// resolver.  `regular` asks for a replacement food and poison;
/// `new_segments` is the growth granted in the same tick, so the
/// scheduler can gate special spawns on the projected chain length.
#[derive(Clone, Copy, Debug, PartialEq, Eq, Structural)]
pub struct SpawnConsumables {
    pub regular: bool,
    pub new_segments: u16,
}

/// A growth request: how many segments to append at the vacated tail
/// cell.
#[derive(Clone, Copy, Debug, PartialEq, Eq, Structural)]
pub struct Growth(pub u16);

/// A floating toast for the shell: the growth amount won from a
/// superfood, to be rendered at the given coarse cell.
#[derive(Clone, Copy, Debug, PartialEq, Eq, Structural)]
pub struct ShowMessage {
    pub new_segments: u16,
    pub position: ConsumablePosition,
}

/// Everything one consumption step decided, for the session
/// controller and the shell: growth to apply, a spawn request, a
/// possible toast, the game-over signal, and which cues to play.
#[derive(Clone, Copy, Debug, PartialEq, Eq)]
pub struct EatOutcome {
    /// Total segments granted this tick.
    pub growth: u16,
    /// Request for the spawn scheduler, if an item was consumed.
    pub spawn: Option<SpawnConsumables>,
    /// The toast showing a superfood's growth amount.
    pub message: Option<ShowMessage>,
    /// The round ended on a wall or on unprotected poison.
    pub game_over: bool,
    /// A food item was consumed.
    pub ate_food: bool,
    /// A superfood item was consumed.
    pub ate_superfood: bool,
    /// A poison item was consumed (and survived).
    pub ate_poison: bool,
    /// An antidote was consumed.
    pub ate_antidote: bool,
}

/// Everything one full simulation tick produced: the self-collision
/// flag from movement, the consumption outcome, the spawn scheduler's
/// outcome when it ran, and the combined game-over signal.
#[derive(Clone, Copy, Debug, PartialEq, Eq)]
pub struct TickOutcome {
    /// The head moved onto a pre-movement segment cell.
    pub collided: bool,
    /// What the consumption resolver decided.
    pub eat: EatOutcome,
    /// What the spawn scheduler placed, when a consumption asked for
    /// it.
    pub spawn: Option<SpawnOutcome>,
    /// The round ended this tick; the caller must run the game-over
    /// transition before the next tick.
    pub game_over: bool,
}

/// What one run of the spawn scheduler placed, and whether a special
/// spawn batch fired (the shell plays its cue on `special`).
#[derive(Clone, Copy, Debug, PartialEq, Eq)]
pub struct SpawnOutcome {
    /// Cell of the replacement food, when one was placed.
    pub spawned_food: Option<ConsumablePosition>,
    /// Cell of the replacement poison, when one was placed.
    pub spawned_poison: Option<ConsumablePosition>,
    /// Cell of the new superfood of a special batch.
    pub spawned_superfood: Option<ConsumablePosition>,
    /// Cell of the new antidote of an every-other special batch.
    pub spawned_antidote: Option<ConsumablePosition>,
    /// A special spawn batch fired.
    pub special: bool,
}

} // verus!
