[package]
name = "salvation"
version = "0.1.0"
edition = "2021"
publish = false

[dependencies]
godot = "0.4"
serde = { version = "=1.0.229", features = ["derive"] }
serde_json = "=1.0.154"
dashmap = { version = "=6.2.1", features = ["serde"] }
crossbeam-utils = "=0.8.23"
rand = "=0.8.8"
