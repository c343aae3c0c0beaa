[package]
name = "stone_raft"
version = "0.1.0"
edition = "2021"
publish = false

[dependencies]
rand = { version = "=0.8.8", features = ["small_rng"] }
libm = "=0.2.16"
crossterm = "=0.29.0"
rtrb = "=0.4.1"
