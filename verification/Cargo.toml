[package]
name = "sensorbus"
version = "0.1.0"
edition = "2021"
publish = false

[dependencies]
embedded-hal = "=0.2.7"
micromath = { version = "=2.1.0", features = ["vector"] }
