[package]
name = "dapr_statestore"
version = "0.1.0"
edition = "2021"
publish = false

[dependencies]
axum = "*"
dapr = "*"
log = "*"
reqwest = "*"
tokio = { version = "*", features = ["time", "rt"] }
