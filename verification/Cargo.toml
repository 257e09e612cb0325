[package]
name = "kb"
version = "0.1.0"
edition = "2021"
publish = false

[dependencies]
postcard = { version = "=1.1.3", default-features = false, features = ["alloc"] }
serde = { version = "=1.0.229", default-features = false, features = ["alloc"] }
smart-leds = "=0.4.0"
usbd-human-interface-device = "=0.6.1"
usb-device = "=0.3.2"
embedded-hal = "=1.0.0"
rp2040-hal = { version = "=0.11.0", features = ["rt", "critical-section-impl"] }
rp2040-boot2 = "=0.3.0"
rtic = { version = "=2.4.0", features = ["thumbv6-backend"] }
rtic-monotonics = { version = "=2.2.1", features = ["rp2040"] }
rtic-sync = "=1.6.0"
defmt = "=1.2.0"
defmt-rtt = "=1.3.1"
panic-probe = { version = "=1.0.0", features = ["print-defmt"] }
embedded-alloc = "=0.7.0"
ssd1306 = "=0.10.0"
ws2812-pio = "=0.9.0"
frunk = { version = "=0.5.0", default-features = false }
