[package]
name = "woodox_lib"
version = "0.1.0"
edition = "2021"
publish = false

[dependencies]
usbd-human-interface-device = "*"
usb-device = "*"
embedded-hal = "1"
fugit = "*"
frunk_core = { version = "*", default-features = false }
rp235x-hal = { version = "*", features = ["rt", "critical-section-impl", "binary-info"] }
defmt = "*"
defmt-rtt = "*"
panic-probe = "*"
cortex-m = "*"
critical-section = "*"
rtic = { version = "2", features = ["thumbv8main-backend"] }
