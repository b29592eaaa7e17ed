[package]
name = "kubchain"
version = "0.1.0"
edition = "2021"
publish = false

[dependencies]
alloy-primitives = { version = "=1.7.3", features = ["k256"] }
alloy-sol-types = "=1.7.3"
alloy-genesis = "=1.8.3"
lru = "=0.19.0"
parking_lot = "=0.12.5"
serde = { version = "=1.0.229", features = ["derive"] }
serde_json = "=1.0.154"
eyre = "=0.6.14"
thiserror = "=2.0.21"
clap = { version = "=4.6.7", features = ["derive"] }
tracing = "=0.1.44"

[dev-dependencies]
k256 = "=0.13.4"
