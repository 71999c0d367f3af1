[package]
name = "zone_actor"
version = "0.1.0"
edition = "2021"
publish = false

[dependencies]
chrono = "0.4"
eolib = "*"
rand = "0.8"
tokio = { version = "1", features = ["sync", "rt", "macros", "time"] }
