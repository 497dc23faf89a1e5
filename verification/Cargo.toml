[package]
name = "mqtt_router"
version = "0.1.0"
edition = "2021"
publish = false

[dependencies]
indexmap = "*"
rumqttc = "*"
tokio = { version = "*", features = ["macros", "rt-multi-thread"] }
log = "*"
pretty_env_logger = "*"
