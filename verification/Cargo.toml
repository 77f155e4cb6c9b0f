[package]
name = "cog_task"
version = "0.1.0"
edition = "2021"
publish = false

[dependencies]
chrono = "*"
serde = { version = "*", features = ["derive"] }
serde_cbor = "*"
ron = "*"
once_cell = "*"
spin_sleep = "*"
