//! The nRF Bluetooth LE driver of split keyboards.

use vstd::prelude::*;

verus! {

/// The driver of a split keyboard's peripheral half that talks to its central half over
/// Bluetooth LE.
pub struct NRFBLEPeripheralDriver {}

/// Creates the Bluetooth LE driver of a peripheral half.
pub fn setup_driver() -> (r: NRFBLEPeripheralDriver) {
    NRFBLEPeripheralDriver {  }
}

} // verus!
