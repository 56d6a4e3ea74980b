//! Core of a minimal territory-control strategy game: a rectangular grid of
//! tiles owned by two (or more) factions, a settlement-growth economy driven
//! by population thresholds, and a tick-based simulation with a scripted
//! opponent. The rendering/input layer is a collaborator outside this crate;
//! it feeds discrete actions in and reads the grid state back out.

pub mod grid;
pub mod laws;
pub mod population_utility;
mod rng;
pub mod session;
pub mod tile_utility;
