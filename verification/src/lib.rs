//! Keyboard firmware logic: key layouts and their state machine, key codes, and the
//! configuration logic of lighting and hardware helpers.

pub mod key_code;
pub mod action;
pub mod layout;
pub mod queues;
pub mod model;
pub mod backlight;
pub mod hw;
pub mod matrix;
pub mod keyboard;
pub mod display;
pub mod drivers;
pub mod bluetooth;
pub mod templates;
