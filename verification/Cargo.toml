[package]
name = "ics07_tendermint"
version = "0.1.0"
edition = "2021"
publish = false

[dependencies]
serde = { version = "=1.0.229", features = ["derive"] }

[dev-dependencies]
ibc-proto = { version = "=0.52.0", default-features = false, features = ["std"] }
prost = "=0.13.5"
