[package]
name = "vixi"
version = "0.1.0"
edition = "2021"
publish = false

[dependencies]
futures = "=0.1.31"
serde = { version = "=1.0.229", features = ["derive"] }
serde_json = "=1.0.154"
termion = "=1.5.6"
xrl = "=0.0.9"
