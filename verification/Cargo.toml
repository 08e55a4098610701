[package]
name = "vocabulearn"
version = "0.1.0"
edition = "2021"
publish = false

[dependencies]
chrono = { version = "=0.4.45", features = ["serde"] }
rand = "=0.10.3"
csv = "=1.4.0"
serde = { version = "=1.0.229", features = ["derive"] }
clap = "=4.6.7"
