//! Backlighting of a matrix of RGB LEDs.

pub mod animations;
