[package]
name = "zgdatestharness"
version = "0.1.0"
edition = "2021"
publish = false

[dependencies]
anyhow = "1"
async-trait = "0.1"
clap = { version = "4", features = ["derive", "env"] }
futures = "0.3"
governor = "0.6"
hex = "0.4"
prometheus = "0.13"
prometheus_exporter = "0.8"
prost = "0.12"
rand = "0.8"
tokio = { version = "1", features = ["macros", "rt-multi-thread", "sync", "time"] }
tonic = "0.11"
