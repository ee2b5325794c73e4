[package]
name = "layered"
version = "0.1.0"
edition = "2021"
publish = false

[dependencies]
rig-core = "=0.38.2"
tokio = { version = "=1.53.2", features = ["macros", "rt-multi-thread"] }
serde = { version = "=1.0.229", features = ["derive"] }
serde_json = "=1.0.151"
schemars = "=1.2.2"
