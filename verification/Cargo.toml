[package]
name = "game"
version = "0.1.0"
edition = "2021"
publish = false

[dependencies]
anyhow = "1"
ash = "0.32"
env_logger = "0.8"
log = "0.4"
once_cell = "1"
