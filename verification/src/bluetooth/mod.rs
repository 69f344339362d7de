//! Bluetooth.

pub mod nrf_ble;
