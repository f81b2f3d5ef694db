[package]
name = "rustydb"
version = "0.1.0"
edition = "2021"
publish = false

[dependencies]
tokio = { version = "1", features = ["macros", "rt-multi-thread", "sync", "time"] }
tonic = "0.12"
prost = "0.13"
