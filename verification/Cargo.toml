[package]
name = "pallet_zombies"
version = "0.1.0"
edition = "2021"
publish = false

[dependencies]
frame-support = "=49.0.1"
frame-system = "=49.0.0"
sp-io = "=49.0.0"

[dev-dependencies]
parity-scale-codec = "=3.7.5"
