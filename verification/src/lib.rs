//! A verified physics core for a draggable, bouncing desktop ball.
//!
//! The library owns the interaction state machine: pointer tracking,
//! drag capture with smoothed velocity estimation, and free-flight
//! integration with gravity, screen-edge collision and linear drag.
//! All quantities are fixed-point integers (see [`fixed`]); the window
//! host around the library converts to and from device coordinates.

pub mod ball;
pub mod fixed;
pub mod input;
pub mod math;
