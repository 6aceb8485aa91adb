[package]
name = "iron_rainbow"
version = "0.1.0"
edition = "2021"
publish = false

[dependencies]
image = { version = "0.25", default-features = false, features = ["png"] }
bytemuck = { version = "1", features = ["derive"] }
serde = { version = "1", features = ["derive"] }
serde_json = "1"
toml = "0.8"
anyhow = "1"
chrono = "0.4"
env_logger = "0.11"
log = "0.4"
pollster = "0.3"
futures-intrusive = "0.5"
tokio = { version = "1", features = ["macros", "rt-multi-thread"] }
