//! Simulation core of a terminal snake game: grid geometry, snake movement
//! and collision rules, spawning of food, meteors and portals, pacing, and
//! the per-tick session state machine.

pub mod geometry;
pub mod entities;
pub mod snake;
pub mod spawn;
pub mod pacing;
pub mod session;
pub mod laws;
