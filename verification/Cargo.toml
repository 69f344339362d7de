[package]
name = "rumcake"
version = "0.1.0"
edition = "2021"
publish = false

[dependencies]
arraydeque = { version = "=0.4.5", default-features = false }
heapless = "=0.7.17"
embedded-hal = { version = "=0.2.7", features = ["unproven"] }
ringbuffer = { version = "=0.15.0", default-features = false }
heck = "=0.4.1"
smart-leds = "*"
is31fl3731 = "*"
