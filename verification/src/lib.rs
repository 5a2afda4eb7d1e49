//! A verified pursuit simulation: one agent chases a relocating target on a
//! 2D plane under a damped proportional-derivative control law, scoring a
//! point and respawning the target each time the agent reaches it.
//!
//! All coordinates, velocities and gains are fixed-point values in
//! thousandths of a unit, so the whole control loop is exact integer
//! arithmetic with proved bounds.

pub mod params;
pub mod fixed;
pub mod vec2;
pub mod state;
pub mod controller;
pub mod motion;
pub mod eat;
pub mod respawn;
pub mod tick;
