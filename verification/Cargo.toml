[package]
name = "snowflake_bindings"
version = "0.1.0"
edition = "2021"
publish = false

[dependencies]
bytes = "*"
serde = { version = "*", features = ["derive"] }
serde_json = "*"
chrono = "*"
thiserror = "*"
