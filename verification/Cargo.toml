[package]
name = "bottlesprocket"
version = "0.0.1"
edition = "2021"
publish = false

[dependencies]
clap = "2"
env_logger = "0.4"
libc = "0.2"
log = "0.3"
