[package]
name = "hybrid_exec"
version = "0.1.0"
edition = "2021"
publish = false

[dependencies]
anyhow = "1"
async-condvar-fair = { version = "*", features = ["parking_lot_0_12"] }
async-trait = "0.1"
futures = "0.3"
itertools = "0.10"
linked-hash-map = "0.5"
once_cell = "1"
parking_lot = "0.12"
thiserror = "1"
