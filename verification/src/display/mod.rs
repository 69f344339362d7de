//! Displays.

pub mod drivers;

use vstd::prelude::*;

verus! {

/// Possible orientations for a display.
#[derive(Debug, Clone, Copy, PartialEq, Eq, Structural)]
pub enum Orientation {
    /// Vertical/portrait orientation.
    Vertical,
    /// Horizontal/landscape orientation.
    Horizontal,
}

impl Orientation {
    /// The word the default display contents use for the orientation.
    pub fn label(&self) -> (r: &'static str)
        ensures
            r@ == (match self {
                Orientation::Vertical => "VERTICAL"@,
                Orientation::Horizontal => "HORIZONTAL"@,
            }),
    {
        match self {
            Orientation::Vertical => "VERTICAL",
            Orientation::Horizontal => "HORIZONTAL",
        }
    }
}

} // verus!
