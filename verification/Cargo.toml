[package]
name = "sim_core"
version = "0.1.0"
edition = "2021"
publish = false

[dependencies]
chrono = "0.4"
bitvec = "1"
num-traits = "0.2"
