//! A small arcade simulation on fixed-point integers: a player collects stars
//! and avoids roaming enemies inside a rectangular viewport.
//!
//! Lengths are in thousandths of a pixel, durations in nanoseconds, and
//! fractions (direction components, random draws) in units of 2^-32.

pub mod geometry;
pub mod timer;
pub mod world;
pub mod movement;
pub mod collision;
pub mod spawning;
pub mod protocol;
pub mod frame;
pub mod laws;
