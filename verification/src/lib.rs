//! Decision logic of a keyboard teleoperation node: which key does what to
//! the commanded motion, how the arrow keys ramp a velocity level, how the
//! speed keys scale the top speeds, and what velocity command results.
//!
//! Velocity levels are held exactly, as whole ticks of 1/20 of a unit, and the
//! top speeds as the number of 10% increases and decreases applied to them, so
//! that every contract speaks of exact values; turning them into floating
//! point numbers is left to the program that publishes the command.

pub mod velocity;
pub mod bindings;
pub mod gain;
pub mod teleop;
pub mod laws;
pub mod terminal;
pub mod wasd;
