[package]
name = "kash"
version = "0.1.0"
edition = "2021"
publish = false

[dependencies]
sled = "0.34"
rmp-serde = "1"
serde = { version = "1", features = ["derive"] }
moka = { version = "0.12", features = ["sync", "future"] }
redis = { version = "*", features = ["r2d2", "tokio-comp", "connection-manager"] }
r2d2 = "0.8"
directories = "*"
tokio = { version = "1", features = ["macros", "time", "sync", "parking_lot", "rt-multi-thread"] }
async-trait = "0.1"
thiserror = "*"
once_cell = "1"
instant = "0.1"

[dev-dependencies]
tempfile = "3"
