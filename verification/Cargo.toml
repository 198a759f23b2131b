[package]
name = "microbit-car"
version = "0.1.0"
edition = "2021"
publish = false

[dependencies]
defmt = "=1.2.0"
defmt-rtt = "=1.3.1"
embassy-executor = { version = "=0.10.0", features = ["platform-spin", "executor-thread", "defmt"] }
embassy-futures = "=0.1.2"
embassy-nrf = { version = "=0.10.0", features = ["defmt", "nrf52833", "gpiote", "time-driver-rtc1", "nfc-pins-as-gpio"] }
embassy-sync = { version = "=0.8.0", features = ["defmt"] }
embassy-time = { version = "=0.5.1", features = ["defmt", "tick-hz-32_768"] }
panic-probe = { version = "=1.0.0", features = ["print-defmt"] }
static_cell = "=2.1.1"
