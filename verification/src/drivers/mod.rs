//! Drivers of external devices.

pub mod is31fl3731;
pub mod nrf_ble;
pub mod ws2812_bitbang;
