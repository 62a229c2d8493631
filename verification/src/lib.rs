//! A fixed-timestep, grid-based arcade simulation: a single player cell moves
//! horizontally across a discrete grid while obstacles descend one row per
//! tick; survival increases the score, and an adjacent obstacle ends the run.

pub mod grid;
pub mod player;
pub mod rng;
pub mod sim;
pub mod timestep;
