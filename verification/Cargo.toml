[package]
name = "log_setup"
version = "0.1.0"
edition = "2021"
publish = false

[dependencies]
log = "0.4"
env_logger = "0.10"
chrono = "0.4"
