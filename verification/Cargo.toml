[package]
name = "aether_live_state"
version = "0.1.0"
edition = "2021"
publish = false

[dependencies]
arc-swap = "1"
