[package]
name = "room_telemetry"
version = "0.1.0"
edition = "2021"
publish = false

[dependencies]
chrono = "0.4"
hyper = "0.10"
libc = "0.2"
log = "0.4"
env_logger = "0.11"
