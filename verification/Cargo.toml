[package]
name = "zbin"
version = "0.1.0"
edition = "2021"
publish = false

[dependencies]
indexmap = "2"
chrono = "0.4"
nanoid = "0.4"
axum = "0.6"
maud = { version = "0.25", features = ["axum"] }
serde = { version = "1", features = ["derive"] }
tokio = { version = "1", features = ["rt-multi-thread", "macros"] }
tower-http = { version = "0.4", features = ["fs"] }
