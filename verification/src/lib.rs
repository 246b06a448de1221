//! A verified two-player Pong-style match simulation.
//!
//! The library models the collision-and-motion core of the game: sprites with
//! velocity integration and wall clamping, paddles, a ball with randomized
//! resets, and the per-tick match controller that resolves bounces and
//! scoring. Rendering and input plumbing are left to the surrounding program,
//! which drives the simulation with key events and update ticks and reads its
//! state back.

pub mod app;
pub mod ball;
pub mod board;
pub mod color;
pub mod commons;
pub mod coordinate_transformation;
pub mod pad;
pub mod sprite;
