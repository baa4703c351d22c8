[package]
name = "ta"
version = "0.1.0"
edition = "2021"
publish = false

[dependencies]
rust_decimal = { version = "*", features = ["maths"] }
chrono = "*"
serde = { version = "*", features = ["derive"] }
