[package]
name = "pg_ivfflat"
version = "0.1.0"
edition = "2021"
publish = false

[dependencies]
acap = "*"
pgrx = { version = "0.12", features = ["pg16"] }
serde = { version = "1", features = ["derive"] }
serde_json = { version = "1", features = ["float_roundtrip"] }
