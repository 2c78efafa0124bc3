[package]
name = "telemetry_node"
version = "0.1.0"
edition = "2021"
publish = false

[dependencies]
embassy-executor = "=0.5.1"
embassy-futures = "=0.1.2"
embassy-net = { version = "=0.4.0", features = ["tcp", "dns", "dhcpv4", "medium-ethernet", "proto-ipv4"] }
embassy-sync = "=0.6.2"
embassy-time = "=0.3.2"
esp32c3 = "=0.23.0"
esp-backtrace = { version = "=0.13.0", features = ["esp32c3", "panic-handler", "exception-handler", "println"] }
esp-hal = { version = "=0.18.0", default-features = false }
esp-hal-embassy = { version = "=0.1.0", default-features = false }
esp-println = { version = "=0.10.0", features = ["esp32c3"] }
esp-wifi = { version = "=0.6.0", default-features = false }
heapless = "=0.8.0"
rust-mqtt = { version = "=0.3.1", default-features = false }
static_cell = "=2.1.1"
