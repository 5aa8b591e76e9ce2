[package]
name = "sbchargelimit"
version = "0.1.0"
edition = "2021"
publish = false

[dependencies]
anyhow = "*"
btleplug = "*"
chrono = "*"
confy = "*"
directories = "*"
env_logger = "*"
log = "*"
serde = { version = "*", features = ["derive"] }
starship-battery = "*"
tokio = { version = "*", features = ["macros", "rt-multi-thread", "time", "sync"] }
tokio-stream = "*"
uuid = "*"
