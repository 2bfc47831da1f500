[package]
name = "navitia_model"
version = "0.1.0"
edition = "2021"
publish = false

[dependencies]
chrono = { version = "0.4", default-features = false, features = ["alloc"] }
serde = { version = "1", features = ["derive"] }
csv = "1"
failure = "0.1"
log = "0.4"
