//! Backlighting of a simple backlight.

pub mod animations;
