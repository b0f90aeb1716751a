//! Grid simulation engine for the diplopod arcade game.
//!
//! A chain of segments moves on a fine grid inside a walled arena,
//! consuming items that sit on a coarser grid: food grows the chain,
//! poison is fatal unless immunity is active, superfood grows the chain
//! by a random amount, and an antidote grants stacking immunity while
//! roaming the arena in a random walk.  The library owns the full game
//! state and its per-tick transitions; rendering, audio and input stay
//! outside and communicate through plain values and returned events.

pub mod antidote;
pub mod cells;
pub mod components;
pub mod config;
pub mod control;
pub mod eat;
pub mod events;
pub mod game;
pub mod highscore;
pub mod laws;
pub mod menu;
pub mod movement;
pub mod over_menu;
pub mod resources;
pub mod rng;
pub mod setting_menu;
pub mod spawner;
