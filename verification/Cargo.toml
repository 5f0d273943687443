[package]
name = "axum_prom"
version = "0.1.0"
edition = "2021"
publish = false

[dependencies]
axum = { version = "0.7", default-features = false, features = ["matched-path"] }
futures-core = "0.3"
http = "1"
pin-project = "1"
prometheus = { version = "0.13", default-features = false }
tower = "0.4"
