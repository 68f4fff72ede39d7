[package]
name = "house"
version = "0.1.0"
edition = "2021"
publish = false

[dependencies]
rand = "0.8"
tokio = { version = "1", features = ["full"] }
serde = { version = "1", features = ["derive"] }
flexbuffers = "2"
dashmap = "5"
parking_lot = "0.12"
futures = "0.3"
thiserror = "1"
threadpool = "1"
frunk = "0.4"
