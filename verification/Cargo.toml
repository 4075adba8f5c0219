[package]
name = "vedirect2mqtt"
version = "0.1.0"
edition = "2021"
publish = false

[dependencies]
clap = { version = "4", features = ["derive"] }
env_logger = "0.10"
log = "0.4"
rumqttc = { version = "0.20", default-features = false }
serde = "1"
serde_derive = "1"
serde_json = "1"
serialport = { version = "4", default-features = false }
tokio = { version = "1", features = ["rt", "macros", "time"] }
toml = "0.5"
