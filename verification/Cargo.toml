[package]
name = "dispatch_core"
version = "0.1.0"
edition = "2021"
publish = false

[dependencies]
chrono = "0.4"
rust-crypto = "0.2"
hyper = "0.12"
futures = "0.1"
tokio-fs = "0.1"
tokio-io = "0.1"
tokio-process = "0.2"
log = "0.4"
fern = "0.6"
serde = "1"
serde_derive = "1"
serde_json = "1"
serde_yaml = "0.8"
horrorshow = "0.8"
