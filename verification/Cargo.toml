[package]
name = "miner_core"
version = "0.1.0"
edition = "2021"
publish = false

[dependencies]
anyhow = "=1.0.104"
argon2 = "=0.5.3"
chrono = "=0.4.45"
config = "=0.15.27"
futures = "=0.3.34"
num-bigint = "=0.4.8"
num_cpus = "=1.17.0"
rand = "=0.9.5"
snap-coin = "<3"
tokio = { version = "=1.54.1", features = ["rt-multi-thread", "macros"] }
