[package]
name = "mizet_fw"
version = "0.1.0"
edition = "2021"
publish = false

[dependencies]
embassy-time = "=0.5.1"
usbd-hid = "=0.10.2"
embedded-graphics = "=0.8.1"
ssd1306 = "=0.10.0"
embassy-usb = "=0.6.0"
embassy-sync = "=0.8.0"
embassy-futures = "=0.1.2"
embassy-executor = { version = "=0.9.1", features = ["arch-std", "executor-thread"] }
defmt = "=1.2.0"
