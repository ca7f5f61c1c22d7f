//! Deterministic tick-based core for a small grid puzzle game.
//!
//! A player moves on a bounded two-dimensional grid that contains blocking
//! terrain, an exit tile, hazard actors (enemies), static hazards (spikes)
//! and collectible switches that keep the exit locked while any remain.
//! The heart of the library is [`game::step`]: given an immutable
//! [`level::Level`] and a current [`state::State`], it applies one input
//! action and returns the next snapshot, enforcing every movement-legality
//! and collision rule.

pub mod game;
pub mod level;
pub mod point;
pub mod state;
pub mod utility;
