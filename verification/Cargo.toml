[package]
name = "iot_core"
version = "0.1.0"
edition = "2021"
publish = false

[dependencies]
base64 = "=0.13.1"
anyhow = "*"
async-trait = "*"
futures = "*"
log = "*"
serde = { version = "*", features = ["derive"] }
serde_json = "*"
tokio = { version = "*", features = ["net"] }
paho-mqtt = { version = "*", default-features = false, features = ["ssl"] }
coap = "*"
