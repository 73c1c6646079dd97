[package]
name = "phase_queen"
version = "0.1.0"
edition = "2021"
publish = false

[dependencies]
sawtooth-sdk = "*"
