//! A verified core for a classic snake arcade game: grid geometry, the
//! segment-chain snake and its motion, boundary and self collision, random
//! food placement, the fixed-timestep simulation clock, and the top-level
//! Playing / GameOver state machine. Rendering, key polling and timing are
//! left to a thin adapter around this crate.

pub mod clock;
pub mod food;
pub mod game;
pub mod geometry;
pub mod snake;
